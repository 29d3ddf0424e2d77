//! Profile store: lists the available profiles and reads one by file name.
//! It serves the builtin profiles under their file names.
use vstd::prelude::*;
use vstd::string::StrSliceExecFns;

use crate::profile::{standard, standard_profile, Profile, ProfileView};
use crate::profile_parser::{parse_profile_spec, parse_profile_text};

verus! {

/// Failure of the profile store.
#[derive(Clone, Copy, Debug, PartialEq, Eq, Structural)]
pub enum SdProfileError {
    SdCardError,
    FileNotFound,
    ParseError,
    InvalidFormat,
    TooManyProfiles,
}

/// Human-readable message for a store failure.
pub open spec fn error_text(e: SdProfileError) -> Seq<char> {
    match e {
        SdProfileError::FileNotFound => "Profile file not found"@,
        SdProfileError::ParseError => "Profile parse error"@,
        SdProfileError::InvalidFormat => "Invalid profile format"@,
        SdProfileError::SdCardError => "SD card error"@,
        SdProfileError::TooManyProfiles => "Too many profiles"@,
    }
}

impl SdProfileError {
    /// The message shown for this failure.
    pub fn message(&self) -> (r: &'static str)
        ensures
            r@ == error_text(*self),
    {
        match self {
            SdProfileError::FileNotFound => "Profile file not found",
            SdProfileError::ParseError => "Profile parse error",
            SdProfileError::InvalidFormat => "Invalid profile format",
            SdProfileError::SdCardError => "SD card error",
            SdProfileError::TooManyProfiles => "Too many profiles",
        }
    }
}

/// The lead-free profile.
pub open spec fn lead_free_profile() -> ProfileView {
    standard_profile(
        "Lead Free"@,
        seq![150_000i32, 180_000, 217_000, 245_000, 217_000, 50_000],
        seq![90u32, 180, 210, 240, 270, 330],
        seq![90u32, 90, 30, 30, 30, 60],
    )
}

/// The leaded profile.
pub open spec fn leaded_profile() -> ProfileView {
    standard_profile(
        "Leaded"@,
        seq![100_000i32, 150_000, 183_000, 215_000, 183_000, 50_000],
        seq![180u32, 270, 300, 330, 360, 420],
        seq![180u32, 90, 30, 30, 30, 60],
    )
}

/// The low-temperature profile.
pub open spec fn low_temp_profile() -> ProfileView {
    standard_profile(
        "Low Temperature"@,
        seq![80_000i32, 120_000, 150_000, 180_000, 150_000, 50_000],
        seq![45u32, 105, 135, 165, 195, 255],
        seq![45u32, 60, 30, 30, 30, 60],
    )
}

/// The file names under which the store holds profiles, in listing order.
pub open spec fn stored_names() -> Seq<Seq<char>> {
    seq!["lead_free.txt"@, "leaded.txt"@, "low_temp.txt"@]
}

/// What reading the profile file `name` gives.
pub open spec fn stored_profile(name: Seq<char>) -> Result<ProfileView, SdProfileError> {
    if name == "lead_free.txt"@ {
        Ok(lead_free_profile())
    } else if name == "leaded.txt"@ {
        Ok(leaded_profile())
    } else if name == "low_temp.txt"@ {
        Ok(low_temp_profile())
    } else {
        Err(SdProfileError::FileNotFound)
    }
}

/// Whether two strings hold the same characters.
pub fn str_eq(a: &str, b: &str) -> (r: bool)
    ensures
        r == (a@ == b@),
{
    let n = a.unicode_len();
    if n != b.unicode_len() {
        return false;
    }
    let mut i: usize = 0;
    while i < n
        invariant
            n == a@.len() == b@.len(),
            i <= n,
            a@.subrange(0, i as int) == b@.subrange(0, i as int),
        decreases n - i,
    {
        if a.get_char(i) != b.get_char(i) {
            return false;
        }
        assert(a@.subrange(0, i + 1) =~= a@.subrange(0, i as int).push(a@[i as int]));
        assert(b@.subrange(0, i + 1) =~= b@.subrange(0, i as int).push(b@[i as int]));
        i = i + 1;
    }
    assert(a@ =~= a@.subrange(0, n as int));
    assert(b@ =~= b@.subrange(0, n as int));
    true
}

/// Store of reflow profiles.
#[derive(Debug)]
pub struct SdProfileReader {
    pub initialized: bool,
}

impl SdProfileReader {
    /// A store that has not been initialized yet.
    pub fn new() -> (r: Self)
        ensures
            !r.initialized,
    {
        SdProfileReader { initialized: false }
    }

    /// Initializes the store.
    pub fn init(&mut self) -> (r: Result<(), SdProfileError>)
        ensures
            final(self).initialized,
            r is Ok,
    {
        self.initialized = true;
        Ok(())
    }

    /// File names of the available profiles.
    pub fn list_profiles(&self) -> (r: Result<Vec<String>, SdProfileError>)
        ensures
            r is Ok,
            r.unwrap()@.len() == stored_names().len(),
            forall|i: int| 0 <= i < stored_names().len() ==> r.unwrap()@[i]@ == stored_names()[i],
    {
        let mut names: Vec<String> = Vec::new();
        names.push("lead_free.txt".to_owned());
        names.push("leaded.txt".to_owned());
        names.push("low_temp.txt".to_owned());
        Ok(names)
    }

    /// Reads the profile stored under `filename`.
    pub fn read_profile(&self, filename: &str) -> (r: Result<Profile, SdProfileError>)
        ensures
            r matches Ok(p) ==> p.wf() && stored_profile(filename@) == Ok::<
                ProfileView,
                SdProfileError,
            >(p@),
            r matches Err(e) ==> stored_profile(filename@) == Err::<ProfileView, SdProfileError>(
                e,
            ),
    {
        if str_eq(filename, "lead_free.txt") {
            Ok(self.create_lead_free_profile())
        } else if str_eq(filename, "leaded.txt") {
            Ok(self.create_leaded_profile())
        } else if str_eq(filename, "low_temp.txt") {
            Ok(self.create_low_temp_profile())
        } else {
            Err(SdProfileError::FileNotFound)
        }
    }

    /// Parses the text `content` of the profile file `name`.
    pub fn parse_profile_content(&self, content: &str, name: &str) -> (r: Result<
        Profile,
        SdProfileError,
    >)
        ensures
            r matches Ok(p) ==> parse_profile_spec(content@, name@) == Ok::<
                ProfileView,
                SdProfileError,
            >(p@) && p.wf(),
            r matches Err(e) ==> parse_profile_spec(content@, name@) == Err::<
                ProfileView,
                SdProfileError,
            >(e),
    {
        parse_profile_text(content, name)
    }

    fn create_lead_free_profile(&self) -> (r: Profile)
        ensures
            r.wf(),
            r@ == lead_free_profile(),
    {
        proof {
            reveal_strlit("Lead Free");
        }
        let r = standard(
            "Lead Free",
            [150_000, 180_000, 217_000, 245_000, 217_000, 50_000],
            [90, 180, 210, 240, 270, 330],
            [90, 90, 30, 30, 30, 60],
        );
        assert(r@.steps =~= lead_free_profile().steps);
        r
    }

    fn create_leaded_profile(&self) -> (r: Profile)
        ensures
            r.wf(),
            r@ == leaded_profile(),
    {
        proof {
            reveal_strlit("Leaded");
        }
        let r = standard(
            "Leaded",
            [100_000, 150_000, 183_000, 215_000, 183_000, 50_000],
            [180, 270, 300, 330, 360, 420],
            [180, 90, 30, 30, 30, 60],
        );
        assert(r@.steps =~= leaded_profile().steps);
        r
    }

    fn create_low_temp_profile(&self) -> (r: Profile)
        ensures
            r.wf(),
            r@ == low_temp_profile(),
    {
        proof {
            reveal_strlit("Low Temperature");
        }
        let r = standard(
            "Low Temperature",
            [80_000, 120_000, 150_000, 180_000, 150_000, 50_000],
            [45, 105, 135, 165, 195, 255],
            [45, 60, 30, 30, 30, 60],
        );
        assert(r@.steps =~= low_temp_profile().steps);
        r
    }
}

} // verus!
