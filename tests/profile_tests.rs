use reflow_controller::profile::{create_default_profile, Step, StepName};

#[test]
fn test_step_name_to_str() {
    assert_eq!(StepName::Preheat.to_str(), "Preheat");
    assert_eq!(StepName::Soak.to_str(), "Soak");
    assert_eq!(StepName::Ramp.to_str(), "Ramp");
    assert_eq!(StepName::ReflowRamp.to_str(), "Reflow Ramp");
    assert_eq!(StepName::ReflowCool.to_str(), "Reflow Cool");
    assert_eq!(StepName::Cooling.to_str(), "Cooling");
}

#[test]
fn test_default_profile_creation() {
    let profile = create_default_profile();

    assert_eq!(profile.name.as_str(), "Default Profile");
    assert_eq!(profile.steps.len(), 6);

    let preheat = &profile.steps[0];
    assert_eq!(preheat.step_name, StepName::Preheat);
    assert_eq!(preheat.set_temperature, 150_000);
    assert_eq!(preheat.target_time, 90);
    assert_eq!(preheat.step_time, 90);
    assert_eq!(preheat.max_rate, 2_000);
    assert!(!preheat.is_cooling);
    assert!(!preheat.has_fan);
}

#[test]
fn test_default_profile_step_sequence() {
    let profile = create_default_profile();
    let expected_sequence = [
        StepName::Preheat,
        StepName::Soak,
        StepName::Ramp,
        StepName::ReflowRamp,
        StepName::ReflowCool,
        StepName::Cooling,
    ];
    for (i, expected_step) in expected_sequence.iter().enumerate() {
        assert_eq!(profile.steps[i].step_name, *expected_step);
    }
}

#[test]
fn test_default_profile_temperature_progression() {
    let profile = create_default_profile();
    assert_eq!(profile.steps[0].set_temperature, 150_000);
    assert_eq!(profile.steps[1].set_temperature, 175_000);
    assert_eq!(profile.steps[2].set_temperature, 230_000);
    assert_eq!(profile.steps[3].set_temperature, 240_000);
    assert_eq!(profile.steps[4].set_temperature, 217_000);
    assert_eq!(profile.steps[5].set_temperature, 50_000);
}

#[test]
fn test_default_profile_cooling_steps() {
    let profile = create_default_profile();
    assert!(!profile.steps[0].is_cooling);
    assert!(!profile.steps[1].is_cooling);
    assert!(!profile.steps[2].is_cooling);
    assert!(!profile.steps[3].is_cooling);
    assert!(profile.steps[4].is_cooling);
    assert!(profile.steps[5].is_cooling);
}

#[test]
fn test_default_profile_fan_usage() {
    let profile = create_default_profile();
    for i in 0..5 {
        assert!(!profile.steps[i].has_fan);
    }
    assert!(profile.steps[5].has_fan);
}

#[test]
fn test_step_equality() {
    let step1 = Step {
        step_name: StepName::Preheat,
        set_temperature: 150_000,
        target_time: 90,
        step_time: 90,
        max_rate: 2_000,
        is_cooling: false,
        has_fan: false,
    };
    let step2 = Step {
        step_name: StepName::Preheat,
        set_temperature: 150_000,
        target_time: 90,
        step_time: 90,
        max_rate: 2_000,
        is_cooling: false,
        has_fan: false,
    };
    assert_eq!(step1.step_name, step2.step_name);
    assert_eq!(step1.set_temperature, step2.set_temperature);
}

#[test]
fn test_profile_name_constraints() {
    let profile = create_default_profile();
    assert!(profile.name.len() <= 32);
    assert!(!profile.name.is_empty());
}

#[test]
fn profile_copy_is_equal() {
    let profile = create_default_profile();
    let copy = profile.copy();
    assert_eq!(copy.name, profile.name);
    assert_eq!(copy.steps, profile.steps);
}
