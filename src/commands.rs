//! The line-oriented text command protocol of the telemetry link.
//!
//! A line, trimmed of surrounding whitespace, is one of `START`, `STOP`,
//! `RESET`, `LIST_PROFILES` or `SET_PROFILE <file name>`.
use vstd::prelude::*;
use vstd::string::StrSliceExecFns;

use crate::text::{chars_of, range_eq, trim, trim_range};
use crate::Event;

verus! {

/// Longest profile file name a command may carry, in characters.
pub const PROFILE_FILENAME_MAX: usize = 64;

/// Why a line is not a command.
#[derive(Clone, Copy, Debug, PartialEq, Eq, Structural)]
pub enum CommandError {
    /// Not one of the known commands.
    Unknown,
    /// `SET_PROFILE` without a file name.
    MissingProfileName,
    /// A file name longer than `PROFILE_FILENAME_MAX`.
    ProfileNameTooLong,
}

/// Prefix of the profile selection command, including its separator.
pub open spec fn set_profile_prefix() -> Seq<char> {
    "SET_PROFILE "@
}

/// Whether a trimmed line selects a profile.
pub open spec fn is_set_profile(t: Seq<char>) -> bool {
    t.len() > set_profile_prefix().len() && t.subrange(0, set_profile_prefix().len() as int)
        == set_profile_prefix()
}

/// Parses one command line.
pub fn parse_command(line: &str) -> (r: Result<Event, CommandError>)
    ensures
        ({
            let t = trim(line@);
            &&& t == "START"@ ==> r == Ok::<Event, CommandError>(Event::StartCommand)
            &&& t == "STOP"@ ==> r == Ok::<Event, CommandError>(Event::StopCommand)
            &&& t == "RESET"@ ==> r == Ok::<Event, CommandError>(Event::ResetCommand)
            &&& t == "LIST_PROFILES"@ ==> r == Ok::<Event, CommandError>(
                Event::ListProfilesRequest,
            )
            &&& t == "SET_PROFILE"@ ==> r == Err::<Event, CommandError>(
                CommandError::MissingProfileName,
            )
            &&& is_set_profile(t) ==> {
                let name = t.subrange(set_profile_prefix().len() as int, t.len() as int);
                &&& name.len() > PROFILE_FILENAME_MAX ==> r == Err::<Event, CommandError>(
                    CommandError::ProfileNameTooLong,
                )
                &&& name.len() <= PROFILE_FILENAME_MAX ==> (r matches Ok(Event::LoadProfile(n))
                    && n@ == name)
            }
            &&& (t != "START"@ && t != "STOP"@ && t != "RESET"@ && t != "LIST_PROFILES"@ && t
                != "SET_PROFILE"@ && !is_set_profile(t)) ==> r == Err::<Event, CommandError>(
                CommandError::Unknown,
            )
        }),
{
    let chars = chars_of(line);
    let (from, to) = trim_range(&chars, 0, chars.len());
    proof {
        assert(chars@.subrange(0, chars@.len() as int) =~= line@);
        reveal_strlit("SET_PROFILE ");
        reveal_strlit("SET_PROFILE");
        reveal_strlit("START");
        reveal_strlit("STOP");
        reveal_strlit("RESET");
        reveal_strlit("LIST_PROFILES");
        assert("SET_PROFILE"@.len() == 11);
        assert("LIST_PROFILES"@.len() == 13);
        assert("SET_PROFILE "@.len() == 12);
    }
    if range_eq(&chars, from, to, "START") {
        proof {
            let t = chars@.subrange(from as int, to as int);
            assert(t.len() == 5);
            assert(t[0] == 'S' && "RESET"@[0] == 'R');
            assert(t != "STOP"@);
            assert(t != "RESET"@);
            assert(t != "LIST_PROFILES"@);
            assert(t != "SET_PROFILE"@);
            assert(!is_set_profile(t));
        }
        return Ok(Event::StartCommand);
    }
    if range_eq(&chars, from, to, "STOP") {
        proof {
            let t = chars@.subrange(from as int, to as int);
            assert(t.len() == 4);
        }
        return Ok(Event::StopCommand);
    }
    if range_eq(&chars, from, to, "RESET") {
        return Ok(Event::ResetCommand);
    }
    if range_eq(&chars, from, to, "LIST_PROFILES") {
        proof {
            let t = chars@.subrange(from as int, to as int);
            assert(t.subrange(0, 12)[0] == 'L' && set_profile_prefix()[0] == 'S');
        }
        return Ok(Event::ListProfilesRequest);
    }
    if range_eq(&chars, from, to, "SET_PROFILE") {
        return Err(CommandError::MissingProfileName);
    }
    let prefix: usize = 12;
    if to - from > prefix && range_eq(&chars, from, from + prefix, "SET_PROFILE ") {
        proof {
            let t = chars@.subrange(from as int, to as int);
            assert(t.subrange(0, 12) =~= chars@.subrange(from as int, from + 12));
        }
        if to - from - prefix > PROFILE_FILENAME_MAX {
            return Err(CommandError::ProfileNameTooLong);
        }
        let name = line.substring_char(from + prefix, to).to_owned();
        proof {
            let t = chars@.subrange(from as int, to as int);
            assert(t.subrange(12, t.len() as int) =~= chars@.subrange(from + 12, to as int));
        }
        return Ok(Event::LoadProfile(name));
    }
    proof {
        let t = chars@.subrange(from as int, to as int);
        if is_set_profile(t) {
            assert(t.subrange(0, 12) =~= chars@.subrange(from as int, from + 12));
        }
    }
    Err(CommandError::Unknown)
}

} // verus!
