use reflow_controller::Event;

#[test]
fn test_reset_command_from_finished() {
    let reset_event = Event::ResetCommand;
    match reset_event {
        Event::ResetCommand => {
            assert!(true);
        }
        _ => panic!("Expected ResetCommand event"),
    }
}

#[test]
fn test_reset_command_from_error() {
    let reset_event = Event::ResetCommand;
    match reset_event {
        Event::ResetCommand => {
            assert!(true);
        }
        _ => panic!("Expected ResetCommand event"),
    }
}

#[test]
fn test_stop_command() {
    let stop_event = Event::StopCommand;
    match stop_event {
        Event::StopCommand => {
            assert!(true);
        }
        _ => panic!("Expected StopCommand event"),
    }
}

#[test]
fn test_profile_load_event() {
    let profile_name = String::from("test_profile.txt");
    assert!(profile_name.len() <= 64);
    let load_event = Event::LoadProfile(profile_name.clone());
    match load_event {
        Event::LoadProfile(filename) => {
            assert_eq!(filename.as_str(), "test_profile.txt");
        }
        _ => panic!("Expected LoadProfile event"),
    }
}

#[test]
fn test_pid_parameter_update_event() {
    let pid_event = Event::UpdatePidParameters {
        kp: 1500,
        ki: 300,
        kd: 100,
    };
    match pid_event {
        Event::UpdatePidParameters { kp, ki, kd } => {
            assert_eq!(kp, 1500);
            assert_eq!(ki, 300);
            assert_eq!(kd, 100);
        }
        _ => panic!("Expected UpdatePidParameters event"),
    }
}

#[test]
fn test_door_state_change_event() {
    let door_close_event = Event::DoorStateChanged(true);
    match door_close_event {
        Event::DoorStateChanged(closed) => {
            assert!(closed);
        }
        _ => panic!("Expected DoorStateChanged event"),
    }
    let door_open_event = Event::DoorStateChanged(false);
    match door_open_event {
        Event::DoorStateChanged(closed) => {
            assert!(!closed);
        }
        _ => panic!("Expected DoorStateChanged event"),
    }
}

#[test]
fn test_simulation_reset_event() {
    let sim_reset_event = Event::SimulationReset;
    match sim_reset_event {
        Event::SimulationReset => {
            assert!(true);
        }
        _ => panic!("Expected SimulationReset event"),
    }
}

#[test]
fn test_list_profiles_request_event() {
    let list_event = Event::ListProfilesRequest;
    match list_event {
        Event::ListProfilesRequest => {
            assert!(true);
        }
        _ => panic!("Expected ListProfilesRequest event"),
    }
}

#[test]
fn test_start_command_event() {
    let start_event = Event::StartCommand;
    match start_event {
        Event::StartCommand => {
            assert!(true);
        }
        _ => panic!("Expected StartCommand event"),
    }
}

#[test]
fn test_event_enum_completeness() {
    let profile_name = String::from("test.txt");
    assert!(profile_name.len() <= 64);
    let events = [
        Event::StartCommand,
        Event::StopCommand,
        Event::ResetCommand,
        Event::DoorStateChanged(true),
        Event::DoorStateChanged(false),
        Event::LoadProfile(profile_name),
        Event::ListProfilesRequest,
        Event::SimulationReset,
        Event::UpdatePidParameters { kp: 1000, ki: 500, kd: 100 },
    ];
    for event in &events {
        match event {
            Event::StartCommand => assert!(true),
            Event::StopCommand => assert!(true),
            Event::ResetCommand => assert!(true),
            Event::DoorStateChanged(_) => assert!(true),
            Event::LoadProfile(_) => assert!(true),
            Event::ListProfilesRequest => assert!(true),
            Event::SimulationReset => assert!(true),
            Event::UpdatePidParameters { .. } => assert!(true),
        }
    }
}
