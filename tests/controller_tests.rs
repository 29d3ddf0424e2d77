use reflow_controller::controller::{ReflowController, TickOutput, AMBIENT_TEMPERATURE};
use reflow_controller::profile::StepName;
use reflow_controller::{Event, HeaterCommand, LedState, OutputCommand, Status};

fn idle_controller() -> ReflowController {
    let mut c = ReflowController::new();
    assert_eq!(c.status, Status::Initializing);
    let out = c.tick(500, Some(25_000), None);
    assert_eq!(out.state.status, Status::Initializing);
    c.tick(1000, None, None);
    assert_eq!(c.status, Status::Idle);
    c
}

fn running_controller() -> ReflowController {
    let mut c = idle_controller();
    c.tick(1100, None, Some(Event::DoorStateChanged(true)));
    let out = c.tick(1200, None, Some(Event::StartCommand));
    assert_eq!(out.state.status, Status::Running);
    c
}

#[test]
fn settles_into_idle() {
    let mut c = ReflowController::new();
    let out = c.tick(1000, Some(24_000), None);
    assert_eq!(out.state.status, Status::Idle);
    assert_eq!(out.state.target_temperature, AMBIENT_TEMPERATURE);
    assert_eq!(out.state.current_temperature, 24_000);
    assert_eq!(out.state.timer, 0);
    assert_eq!(
        out.effects.heater_commands,
        vec![HeaterCommand::SetFan(false), HeaterCommand::SetPower(0)]
    );
}

#[test]
fn idle_light_follows_door() {
    let mut c = idle_controller();
    let out = c.tick(1100, None, None);
    assert_eq!(
        out.effects.outputs,
        vec![OutputCommand::SetStartButtonLight(LedState::LedOff)]
    );
    let out = c.tick(1200, None, Some(Event::DoorStateChanged(true)));
    assert_eq!(
        out.effects.outputs,
        vec![OutputCommand::SetStartButtonLight(LedState::LedOn)]
    );
}

#[test]
fn start_refused_with_open_door() {
    let mut c = idle_controller();
    let out = c.tick(1100, None, Some(Event::StartCommand));
    assert_eq!(out.state.status, Status::Idle);
    assert_eq!(out.state.heater_power, 0);
}

#[test]
fn start_with_closed_door_runs_first_step() {
    let mut c = running_controller();
    assert_eq!(c.current_step_index, 0);
    assert_eq!(c.target_temperature, 150_000);
    let out = c.tick(2200, Some(100_000), None);
    assert_eq!(out.state.current_step, "Preheat");
    assert_eq!(out.state.timer, 1);
    // Default gains 3.0 and 0.5: 3 * 50 + 0.5 * 50 = 175, clamped to 100.
    assert_eq!(out.state.heater_power, 100);
}

#[test]
fn door_opened_while_heating_is_an_error() {
    let mut c = running_controller();
    let out = c.tick(1300, None, Some(Event::DoorStateChanged(false)));
    assert_eq!(out.state.status, Status::Error);
    assert!(!out.state.error_message.is_empty());
    assert_eq!(out.state.heater_power, 0);
    assert_eq!(
        out.effects.outputs,
        vec![OutputCommand::SetStartButtonLight(LedState::Blink(200, 200))]
    );
    let out = c.tick(1400, None, Some(Event::ResetCommand));
    assert_eq!(out.state.status, Status::Idle);
    assert!(out.state.error_message.is_empty());
}

#[test]
fn door_opened_while_cooling_is_tolerated() {
    let mut c = running_controller();
    c.current_step_index = 5;
    assert_eq!(c.profile.steps[5].step_name, StepName::Cooling);
    let out = c.tick(1300, None, Some(Event::DoorStateChanged(false)));
    assert_eq!(out.state.status, Status::Running);
    assert!(!out.state.door_closed);
}

#[test]
fn stop_returns_to_idle_with_heater_and_fan_off() {
    let mut c = running_controller();
    c.tick(2200, Some(100_000), None);
    let out = c.tick(2300, None, Some(Event::StopCommand));
    assert_eq!(out.state.status, Status::Idle);
    assert_eq!(out.state.heater_power, 0);
    assert!(!out.state.fan);
}

#[test]
fn profile_runs_to_completion_then_resets() {
    let mut c = running_controller();
    let mut now: u64 = 1200;
    let mut completed = 0;
    let mut last: Option<TickOutput> = None;
    while c.status == Status::Running {
        now += 1000;
        let index = c.current_step_index;
        let target = c.profile.steps[index].set_temperature;
        let out = c.tick(now, Some(target), None);
        if c.status == Status::Finished || c.current_step_index != index {
            completed += 1;
        }
        if c.status == Status::Running {
            assert_eq!(completed, c.current_step_index);
        }
        last = Some(out);
        assert!(now < 10_000_000);
    }
    assert_eq!(completed, 6);
    let out = last.unwrap();
    assert_eq!(out.state.status, Status::Finished);
    assert_eq!(out.state.heater_power, 0);
    assert!(out.state.fan);
    assert_eq!(
        out.effects.outputs,
        vec![OutputCommand::SetStartButtonLight(LedState::Blink(500, 500))]
    );
    // The whole profile takes at least the sum of its step times.
    assert!(now - 1200 >= (90 + 90 + 30 + 30 + 30 + 60) * 1000);

    let out = c.tick(now + 1000, None, Some(Event::ResetCommand));
    assert_eq!(out.state.status, Status::Idle);
    assert_eq!(out.state.heater_power, 0);
}

#[test]
fn step_waits_for_temperature() {
    let mut c = running_controller();
    // Long past the step time, but 2 degrees short of the target.
    let out = c.tick(200_000, Some(148_000), None);
    assert_eq!(out.state.status, Status::Running);
    assert_eq!(c.current_step_index, 0);
    // Within one degree counts as reached.
    c.tick(201_000, Some(149_000), None);
    assert_eq!(c.current_step_index, 1);
    assert!(!c.fan);
}

#[test]
fn load_profile_replaces_active_profile() {
    let mut c = idle_controller();
    let out = c.tick(1100, None, Some(Event::LoadProfile(String::from("leaded.txt"))));
    assert_eq!(out.state.status, Status::Idle);
    assert_eq!(out.state.current_profile, "Leaded");
    let announced = out.effects.active_profile.unwrap();
    assert_eq!(announced.name, "Leaded");
    assert_eq!(announced.steps[0].set_temperature, 100_000);
}

#[test]
fn load_unknown_profile_is_an_error() {
    let mut c = idle_controller();
    let out = c.tick(1100, None, Some(Event::LoadProfile(String::from("missing.txt"))));
    assert_eq!(out.state.status, Status::Error);
    assert_eq!(out.state.error_message, "Profile file not found");
    assert!(out.effects.active_profile.is_none());
}

#[test]
fn load_profile_ignored_while_running() {
    let mut c = running_controller();
    let out = c.tick(1300, None, Some(Event::LoadProfile(String::from("leaded.txt"))));
    assert_eq!(out.state.status, Status::Running);
    assert_eq!(out.state.current_profile, "Default Profile");
}

#[test]
fn list_profiles_forwards_listing() {
    let mut c = idle_controller();
    let out = c.tick(1100, None, Some(Event::ListProfilesRequest));
    assert_eq!(
        out.effects.profile_list.unwrap(),
        vec![
            String::from("lead_free.txt"),
            String::from("leaded.txt"),
            String::from("low_temp.txt")
        ]
    );
}

#[test]
fn pid_update_and_simulation_reset_are_forwarded() {
    let mut c = idle_controller();
    let out = c.tick(
        1100,
        None,
        Some(Event::UpdatePidParameters { kp: 2000, ki: 100, kd: 50 }),
    );
    assert_eq!(
        out.effects.heater_commands,
        vec![
            HeaterCommand::UpdatePidParameters { kp: 2000, ki: 100, kd: 50 },
            HeaterCommand::SetFan(false),
            HeaterCommand::SetPower(0)
        ]
    );
    assert_eq!(c.pid_controller.get_parameters(), (2000, 100, 50));
    let out = c.tick(1200, None, Some(Event::SimulationReset));
    assert_eq!(out.effects.heater_commands[0], HeaterCommand::SimulationReset);
}

#[test]
fn reset_ignored_unless_finished_or_error() {
    let mut c = running_controller();
    let out = c.tick(1300, None, Some(Event::ResetCommand));
    assert_eq!(out.state.status, Status::Running);
}

#[test]
fn store_access_through_controller() {
    let mut c = ReflowController::new();
    assert!(c.init_sd_card().is_ok());
    assert!(c.sd_reader.initialized);
    assert_eq!(c.status, Status::Initializing);
    let names = c.get_available_profiles().unwrap();
    assert_eq!(names, vec!["lead_free.txt", "leaded.txt", "low_temp.txt"]);
}

#[test]
fn error_state_holds_outputs_off() {
    let mut c = running_controller();
    c.tick(1300, None, Some(Event::DoorStateChanged(false)));
    c.fan = true;
    let out = c.tick(1400, None, None);
    assert_eq!(out.state.status, Status::Error);
    assert!(!out.state.fan);
    assert_eq!(out.state.target_temperature, 0);
    // Start is refused until a reset.
    let out = c.tick(1500, None, Some(Event::StartCommand));
    assert_eq!(out.state.status, Status::Error);
}
