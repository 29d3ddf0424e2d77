use reflow_controller::sd_profile_reader::{SdProfileError, SdProfileReader};
use reflow_controller::{
    HeaterCommand, LedState, OutputCommand, ReflowControllerState, Status, SYSTEM_TICK_MILLIS,
    VERSION,
};

#[test]
fn test_sd_profile_reader_new() {
    let reader = SdProfileReader::new();
    assert!(!reader.initialized);
}

#[test]
fn test_sd_profile_error_types() {
    let _file_not_found = SdProfileError::FileNotFound;
    let _parse_error = SdProfileError::ParseError;
    let _invalid_format = SdProfileError::InvalidFormat;
    let _sd_card_error = SdProfileError::SdCardError;
    let _too_many_profiles = SdProfileError::TooManyProfiles;
    assert!(true);
}

#[test]
fn sd_profile_error_messages() {
    assert_eq!(SdProfileError::FileNotFound.message(), "Profile file not found");
    assert_eq!(SdProfileError::ParseError.message(), "Profile parse error");
    assert_eq!(SdProfileError::InvalidFormat.message(), "Invalid profile format");
    assert_eq!(SdProfileError::SdCardError.message(), "SD card error");
    assert_eq!(SdProfileError::TooManyProfiles.message(), "Too many profiles");
}

#[test]
fn test_status_enum() {
    let statuses = [
        Status::Initializing,
        Status::Idle,
        Status::Running,
        Status::Finished,
        Status::Error,
    ];
    for status in &statuses {
        assert_eq!(*status, *status);
    }
    assert_ne!(Status::Idle, Status::Running);
    assert_ne!(Status::Error, Status::Finished);
}

#[test]
fn test_led_state_enum() {
    let led_on = LedState::LedOn;
    let led_off = LedState::LedOff;
    let led_blink = LedState::Blink(500, 500);
    assert_eq!(led_on, LedState::LedOn);
    assert_eq!(led_off, LedState::LedOff);
    assert_eq!(led_blink, LedState::Blink(500, 500));
    assert_ne!(led_on, led_off);
}

#[test]
fn test_output_command_enum() {
    let commands = [
        OutputCommand::SetFan(true),
        OutputCommand::SetFan(false),
        OutputCommand::SetLight(true),
        OutputCommand::SetBuzzer(false),
        OutputCommand::SetStartButtonLight(LedState::LedOn),
    ];
    for command in &commands {
        match command {
            OutputCommand::SetFan(state) => assert!(*state == true || *state == false),
            OutputCommand::SetLight(state) => assert!(*state == true || *state == false),
            OutputCommand::SetBuzzer(state) => assert!(*state == true || *state == false),
            OutputCommand::SetStartButtonLight(_) => assert!(true),
        }
    }
}

#[test]
fn test_heater_command_enum() {
    let commands = [
        HeaterCommand::SetPower(50),
        HeaterCommand::SetFan(true),
        HeaterCommand::SimulationReset,
        HeaterCommand::UpdatePidParameters { kp: 1000, ki: 500, kd: 100 },
    ];
    for command in &commands {
        match command {
            HeaterCommand::SetPower(power) => assert!(*power <= 100),
            HeaterCommand::SetFan(_) => assert!(true),
            HeaterCommand::SimulationReset => assert!(true),
            HeaterCommand::UpdatePidParameters { kp, ki, kd } => {
                assert!(*kp > 0 && *ki > 0 && *kd > 0);
            }
        }
    }
}

#[test]
fn test_reflow_controller_state() {
    let error_msg = String::from("Test error");
    assert!(error_msg.len() <= 256);
    let profile_name = String::from("Test Profile");
    assert!(profile_name.len() <= 32);

    let state = ReflowControllerState {
        status: Status::Running,
        target_temperature: 200_000,
        current_temperature: 195_000,
        door_closed: true,
        fan: false,
        light: true,
        heater_power: 75,
        timer: 120,
        current_step: "Ramp",
        current_profile: profile_name,
        error_message: error_msg,
    };

    assert_eq!(state.status, Status::Running);
    assert_eq!(state.target_temperature, 200_000);
    assert_eq!(state.current_temperature, 195_000);
    assert!(state.door_closed);
    assert!(!state.fan);
    assert!(state.light);
    assert_eq!(state.heater_power, 75);
    assert_eq!(state.timer, 120);
    assert_eq!(state.current_step, "Ramp");
    assert_eq!(state.current_profile.as_str(), "Test Profile");
    assert_eq!(state.error_message.as_str(), "Test error");
}

#[test]
fn test_constants() {
    assert_eq!(VERSION, "v0.1");
    assert_eq!(SYSTEM_TICK_MILLIS, 100);
    assert!(SYSTEM_TICK_MILLIS > 0);
    assert!(SYSTEM_TICK_MILLIS < 10000);
    assert!(!VERSION.is_empty());
}
