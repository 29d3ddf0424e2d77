//! Reflow profiles: an ordered sequence of exactly six steps.
use vstd::prelude::*;

verus! {

/// Number of steps in every profile.
pub const PROFILE_STEPS: usize = 6;

/// Longest profile name, in characters.
pub const PROFILE_NAME_MAX: usize = 32;

/// Symbolic name of a profile step.
#[derive(Clone, Copy, Debug, PartialEq, Eq, Structural)]
pub enum StepName {
    Preheat,
    Soak,
    Ramp,
    ReflowRamp,
    ReflowCool,
    Cooling,
}

/// Display label of a step name.
pub open spec fn step_label(n: StepName) -> Seq<char> {
    match n {
        StepName::Preheat => "Preheat"@,
        StepName::Soak => "Soak"@,
        StepName::Ramp => "Ramp"@,
        StepName::ReflowRamp => "Reflow Ramp"@,
        StepName::ReflowCool => "Reflow Cool"@,
        StepName::Cooling => "Cooling"@,
    }
}

impl StepName {
    /// The display label of this step name.
    pub fn to_str(&self) -> (r: &'static str)
        ensures
            r@ == step_label(*self),
    {
        match self {
            StepName::Preheat => "Preheat",
            StepName::Soak => "Soak",
            StepName::Ramp => "Ramp",
            StepName::ReflowRamp => "Reflow Ramp",
            StepName::ReflowCool => "Reflow Cool",
            StepName::Cooling => "Cooling",
        }
    }
}

/// One stage of a reflow profile.
#[derive(Clone, Copy, Debug, PartialEq, Eq, Structural)]
pub struct Step {
    /// Whether the target is reached from above (the oven cools down to it).
    pub is_cooling: bool,
    /// Whether the cooling fan runs during this step.
    pub has_fan: bool,
    pub step_name: StepName,
    /// Target temperature, in thousandths of a degree Celsius.
    pub set_temperature: i32,
    /// Seconds from profile start by which the step should be done (advisory).
    pub target_time: u32,
    /// Seconds the step must stay active.
    pub step_time: u32,
    /// Advisory rate limit, in thousandths of a degree per second.
    pub max_rate: i32,
}

/// Mathematical value of a profile.
pub ghost struct ProfileView {
    pub name: Seq<char>,
    pub steps: Seq<Step>,
}

impl ProfileView {
    pub open spec fn wf(&self) -> bool {
        &&& self.name.len() <= PROFILE_NAME_MAX
        &&& self.steps.len() == PROFILE_STEPS
    }
}

/// A named reflow profile of exactly six steps.
#[derive(Clone, Debug)]
pub struct Profile {
    pub name: String,
    pub steps: Vec<Step>,
}

impl View for Profile {
    type V = ProfileView;

    open spec fn view(&self) -> ProfileView {
        ProfileView { name: self.name@, steps: self.steps@ }
    }
}

impl Profile {
    pub open spec fn wf(&self) -> bool {
        self@.wf()
    }

    /// A copy of this profile.
    pub fn copy(&self) -> (r: Profile)
        ensures
            r@ == self@,
    {
        let mut steps: Vec<Step> = Vec::new();
        let mut i: usize = 0;
        while i < self.steps.len()
            invariant
                i <= self.steps@.len(),
                steps@ == self.steps@.subrange(0, i as int),
            decreases self.steps@.len() - i,
        {
            steps.push(self.steps[i]);
            i = i + 1;
        }
        assert(steps@ =~= self.steps@);
        Profile { name: self.name.clone(), steps }
    }
}

/// Step name at position `i` of the canonical sequence.
pub open spec fn canonical_name(i: int) -> StepName {
    if i == 0 {
        StepName::Preheat
    } else if i == 1 {
        StepName::Soak
    } else if i == 2 {
        StepName::Ramp
    } else if i == 3 {
        StepName::ReflowRamp
    } else if i == 4 {
        StepName::ReflowCool
    } else {
        StepName::Cooling
    }
}

/// Advisory rate of step `i` of the builtin profiles, in thousandths of a
/// degree per second.
pub open spec fn standard_rate(i: int) -> i32 {
    if i == 2 {
        3000
    } else if i == 5 {
        5000
    } else {
        2000
    }
}

/// Step `i` of a builtin profile: canonical name and rate, cooling for the
/// last two steps, fan only in the last one.
pub open spec fn standard_step(i: int, temperature: i32, target_time: u32, step_time: u32) -> Step {
    Step {
        is_cooling: i >= 4,
        has_fan: i == 5,
        step_name: canonical_name(i),
        set_temperature: temperature,
        target_time,
        step_time,
        max_rate: standard_rate(i),
    }
}

/// A builtin profile built from its temperatures and times.
pub open spec fn standard_profile(
    name: Seq<char>,
    temperatures: Seq<i32>,
    target_times: Seq<u32>,
    step_times: Seq<u32>,
) -> ProfileView {
    ProfileView {
        name,
        steps: Seq::new(
            PROFILE_STEPS as nat,
            |i: int| standard_step(i, temperatures[i], target_times[i], step_times[i]),
        ),
    }
}

fn canonical_step_name(i: usize) -> (r: StepName)
    ensures
        r == canonical_name(i as int),
{
    if i == 0 {
        StepName::Preheat
    } else if i == 1 {
        StepName::Soak
    } else if i == 2 {
        StepName::Ramp
    } else if i == 3 {
        StepName::ReflowRamp
    } else if i == 4 {
        StepName::ReflowCool
    } else {
        StepName::Cooling
    }
}

/// Builds a builtin profile from its name, temperatures and times.
pub fn standard(
    name: &str,
    temperatures: [i32; 6],
    target_times: [u32; 6],
    step_times: [u32; 6],
) -> (r: Profile)
    requires
        name@.len() <= PROFILE_NAME_MAX,
    ensures
        r.wf(),
        r@ == standard_profile(name@, temperatures@, target_times@, step_times@),
{
    let mut steps: Vec<Step> = Vec::new();
    let mut i: usize = 0;
    while i < PROFILE_STEPS
        invariant
            i <= PROFILE_STEPS,
            steps@.len() == i,
            forall|j: int|
                0 <= j < i ==> #[trigger] steps@[j] == standard_step(
                    j,
                    temperatures@[j],
                    target_times@[j],
                    step_times@[j],
                ),
        decreases PROFILE_STEPS - i,
    {
        let rate: i32 = if i == 2 {
            3000
        } else if i == 5 {
            5000
        } else {
            2000
        };
        steps.push(
            Step {
                is_cooling: i >= 4,
                has_fan: i == 5,
                step_name: canonical_step_name(i),
                set_temperature: temperatures[i],
                target_time: target_times[i],
                step_time: step_times[i],
                max_rate: rate,
            },
        );
        i = i + 1;
    }
    let r = Profile { name: name.to_owned(), steps };
    assert(r@.steps =~= standard_profile(
        name@,
        temperatures@,
        target_times@,
        step_times@,
    ).steps);
    r
}

/// The profile that the controller starts with.
pub open spec fn default_profile() -> ProfileView {
    standard_profile(
        "Default Profile"@,
        seq![150_000i32, 175_000, 230_000, 240_000, 217_000, 50_000],
        seq![90u32, 180, 210, 240, 270, 330],
        seq![90u32, 90, 30, 30, 30, 60],
    )
}

/// Creates the default profile.
pub fn create_default_profile() -> (r: Profile)
    ensures
        r.wf(),
        r@ == default_profile(),
{
    proof {
        reveal_strlit("Default Profile");
    }
    let r = standard(
        "Default Profile",
        [150_000, 175_000, 230_000, 240_000, 217_000, 50_000],
        [90, 180, 210, 240, 270, 330],
        [90, 90, 30, 30, 30, 60],
    );
    assert(r@.steps =~= default_profile().steps);
    r
}

} // verus!
