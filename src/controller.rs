//! The reflow process state machine.
//!
//! The controller is driven one tick at a time: each tick takes the time,
//! at most one new temperature reading and at most one event, updates the
//! state, and returns the commands to send and the snapshot to publish.
//! Waiting, sending and publishing are left to the caller.
use vstd::prelude::*;

use crate::pid::PidController;
use crate::profile::{create_default_profile, default_profile, Profile, ProfileView, Step, StepName};
use crate::sd_profile_reader::{
    error_text, stored_names, stored_profile, SdProfileError, SdProfileReader,
};
use crate::{Event, HeaterCommand, LedState, OutputCommand, ReflowControllerState, Status};

verus! {

/// Setpoint while no profile runs, in thousandths of a degree Celsius.
pub const AMBIENT_TEMPERATURE: i32 = 25_000;

/// Temperature reported before the first reading.
pub const UNKNOWN_TEMPERATURE: i32 = -100_000;

/// How far below its target a heating step counts as reached.
pub const HEATING_TOLERANCE: i32 = 1000;

/// Time after start-up before the controller becomes idle, in milliseconds.
pub const SETTLE_MILLIS: u64 = 1000;

/// Blink half-period of the start light once a profile has finished.
pub const FINISHED_BLINK_MILLIS: u32 = 500;

/// Blink half-period of the start light in the error state.
pub const ERROR_BLINK_MILLIS: u32 = 200;

/// Default PID gains, in thousandths.
pub const DEFAULT_KP: u32 = 3000;
pub const DEFAULT_KI: u32 = 500;
pub const DEFAULT_KD: u32 = 0;

/// Message of the error entered when the door opens mid-run.
pub open spec fn door_message() -> Seq<char> {
    "door opened while running"@
}

/// Mathematical state of the controller.
pub ghost struct ControllerView {
    pub target_temperature: i32,
    pub current_temperature: i32,
    pub door_closed: bool,
    pub fan: bool,
    pub light: bool,
    pub heater_power: u8,
    pub profile: ProfileView,
    pub current_step_index: usize,
    pub status: Status,
    pub profile_start_millis: u64,
    pub step_start_millis: u64,
    pub pid: PidController,
    pub error_message: Seq<char>,
}

impl ControllerView {
    pub open spec fn wf(&self) -> bool {
        &&& self.profile.wf()
        &&& self.current_step_index < self.profile.steps.len()
        &&& self.heater_power <= 100
        &&& self.pid.wf()
    }

    /// The active step.
    pub open spec fn step(&self) -> Step {
        self.profile.steps[self.current_step_index as int]
    }

    pub open spec fn with_reading(self, reading: Option<i32>) -> Self {
        match reading {
            Some(t) => ControllerView { current_temperature: t, ..self },
            None => self,
        }
    }

    pub open spec fn enter_idle(self) -> Self {
        ControllerView {
            status: Status::Idle,
            heater_power: 0,
            fan: false,
            light: false,
            target_temperature: AMBIENT_TEMPERATURE,
            ..self
        }
    }

    pub open spec fn enter_running(self, now: u64) -> Self {
        ControllerView {
            status: Status::Running,
            fan: false,
            profile_start_millis: now,
            step_start_millis: now,
            current_step_index: 0,
            target_temperature: self.profile.steps[0].set_temperature,
            pid: self.pid.after_reset(),
            ..self
        }
    }

    pub open spec fn exit_running(self) -> Self {
        ControllerView {
            heater_power: 0,
            fan: true,
            light: false,
            target_temperature: AMBIENT_TEMPERATURE,
            ..self
        }
    }

    pub open spec fn enter_finished(self) -> Self {
        ControllerView {
            status: Status::Finished,
            heater_power: 0,
            fan: true,
            light: false,
            target_temperature: AMBIENT_TEMPERATURE,
            ..self
        }
    }

    pub open spec fn enter_error(self, message: Seq<char>) -> Self {
        ControllerView {
            error_message: message,
            status: Status::Error,
            heater_power: 0,
            fan: false,
            light: false,
            target_temperature: 0,
            ..self
        }
    }

    pub open spec fn exit_error(self) -> Self {
        ControllerView {
            status: Status::Idle,
            heater_power: 0,
            fan: false,
            light: false,
            target_temperature: 0,
            error_message: Seq::empty(),
            ..self
        }
    }

    /// Whether opening the door now is a safety violation.
    pub open spec fn door_violation(self, closed: bool) -> bool {
        !closed && self.status == Status::Running && self.step().step_name != StepName::Cooling
    }

    /// State after an event has been handled.
    pub open spec fn after_event(self, event: Event, now: u64) -> Self {
        match event {
            Event::StartCommand => if self.status == Status::Idle && self.door_closed {
                self.enter_running(now)
            } else {
                self
            },
            Event::StopCommand => if self.status == Status::Running {
                self.exit_running().enter_idle()
            } else {
                self
            },
            Event::ResetCommand => if self.status == Status::Finished {
                self.enter_idle()
            } else if self.status == Status::Error {
                self.exit_error()
            } else {
                self
            },
            Event::DoorStateChanged(closed) => {
                let v = ControllerView { door_closed: closed, ..self };
                if self.door_violation(closed) {
                    v.enter_error(door_message())
                } else {
                    v
                }
            },
            Event::LoadProfile(name) => if self.status == Status::Idle {
                match stored_profile(name@) {
                    Ok(p) => ControllerView { profile: p, ..self },
                    Err(e) => self.enter_error(error_text(e)),
                }
            } else {
                self
            },
            Event::ListProfilesRequest => self,
            Event::SimulationReset => self,
            Event::UpdatePidParameters { kp, ki, kd } => ControllerView {
                pid: PidController { kp, ki, kd, integral: 0, ..self.pid },
                ..self
            },
        }
    }

    /// Output commands that handling an event emits.
    pub open spec fn event_outputs(self, event: Event) -> Seq<OutputCommand> {
        let error_light = seq![
            OutputCommand::SetStartButtonLight(
                LedState::Blink(ERROR_BLINK_MILLIS, ERROR_BLINK_MILLIS),
            ),
        ];
        match event {
            Event::DoorStateChanged(closed) => if self.door_violation(closed) {
                error_light
            } else {
                seq![]
            },
            Event::LoadProfile(name) => if self.status == Status::Idle && stored_profile(
                name@,
            ) is Err {
                error_light
            } else {
                seq![]
            },
            _ => seq![],
        }
    }

    /// Heater commands that handling an event forwards.
    pub open spec fn event_heater_commands(self, event: Event) -> Seq<HeaterCommand> {
        match event {
            Event::SimulationReset => seq![HeaterCommand::SimulationReset],
            Event::UpdatePidParameters { kp, ki, kd } => seq![
                HeaterCommand::UpdatePidParameters { kp, ki, kd },
            ],
            _ => seq![],
        }
    }

    /// Whole seconds spent in the active step.
    pub open spec fn step_elapsed_seconds(self, now: u64) -> int {
        if now >= self.step_start_millis {
            (now - self.step_start_millis) / 1000
        } else {
            0
        }
    }

    /// Whether the measurement has reached the active step's target.
    pub open spec fn temperature_reached(self) -> bool {
        if self.step().is_cooling {
            self.current_temperature <= self.step().set_temperature
        } else {
            self.current_temperature >= self.step().set_temperature - HEATING_TOLERANCE
        }
    }

    /// Whether the active step is complete.
    pub open spec fn step_completed(self, now: u64) -> bool {
        self.step_elapsed_seconds(now) >= self.step().step_time && self.temperature_reached()
    }

    /// One PID step towards the setpoint; its duty becomes the heater power.
    pub open spec fn with_pid_update(self) -> Self {
        ControllerView {
            pid: self.pid.after_update(self.target_temperature, self.current_temperature),
            heater_power: self.pid.duty(self.target_temperature, self.current_temperature) as u8,
            ..self
        }
    }

    /// Moves to the next step at time `now`.
    pub open spec fn advance(self, now: u64) -> Self {
        let next = self.profile.steps[self.current_step_index + 1];
        ControllerView {
            fan: next.has_fan,
            current_step_index: (self.current_step_index + 1) as usize,
            step_start_millis: now,
            target_temperature: next.set_temperature,
            pid: self.pid.after_reset(),
            ..self
        }
    }

    /// Setpoint set to the active step's target.
    pub open spec fn with_step_setpoint(self) -> Self {
        ControllerView { target_temperature: self.step().set_temperature, ..self }
    }

    /// The handler of the running status.
    pub open spec fn after_running(self, now: u64) -> Self {
        let v = self.with_step_setpoint();
        if v.step_completed(now) {
            if v.current_step_index + 1 < v.profile.steps.len() {
                v.advance(now).with_pid_update()
            } else {
                v.exit_running().enter_finished()
            }
        } else {
            v.with_pid_update()
        }
    }

    /// State after the handler of the current status has run.
    pub open spec fn after_handler(self, now: u64) -> Self {
        match self.status {
            Status::Initializing => if now >= SETTLE_MILLIS {
                self.enter_idle()
            } else {
                self
            },
            Status::Idle => self,
            Status::Running => self.after_running(now),
            Status::Finished => self,
            Status::Error => ControllerView {
                heater_power: 0,
                fan: false,
                light: false,
                target_temperature: 0,
                ..self
            },
        }
    }

    /// Output commands that the status handler emits.
    pub open spec fn handler_outputs(self, now: u64) -> Seq<OutputCommand> {
        match self.status {
            Status::Idle => seq![
                OutputCommand::SetStartButtonLight(
                    if self.door_closed {
                        LedState::LedOn
                    } else {
                        LedState::LedOff
                    },
                ),
            ],
            Status::Running => {
                let v = self.with_step_setpoint();
                if v.step_completed(now) && v.current_step_index + 1 >= v.profile.steps.len() {
                    seq![
                        OutputCommand::SetStartButtonLight(
                            LedState::Blink(FINISHED_BLINK_MILLIS, FINISHED_BLINK_MILLIS),
                        ),
                    ]
                } else {
                    seq![]
                }
            },
            _ => seq![],
        }
    }

    /// Whether the event of a tick loads a profile.
    pub open spec fn loads_profile(self, event: Option<Event>) -> bool {
        match event {
            Some(Event::LoadProfile(name)) => self.status == Status::Idle && stored_profile(
                name@,
            ) is Ok,
            _ => false,
        }
    }

    /// State after the event of a tick, if any, has been handled.
    pub open spec fn after_optional_event(self, event: Option<Event>, now: u64) -> Self {
        match event {
            Some(e) => self.after_event(e, now),
            None => self,
        }
    }

    /// State after a whole tick.
    pub open spec fn after_tick(self, now: u64, reading: Option<i32>, event: Option<Event>) -> Self {
        self.with_reading(reading).after_optional_event(event, now).after_handler(now)
    }

    /// Seconds since the profile started, as published; 0 while idle.
    pub open spec fn timer(self, now: u64) -> int {
        if self.status == Status::Idle || now < self.profile_start_millis {
            0
        } else if (now - self.profile_start_millis) / 1000 > u32::MAX {
            u32::MAX as int
        } else {
            (now - self.profile_start_millis) / 1000
        }
    }
}

/// Ticks without events, each with its time and a temperature reading.
pub open spec fn drive(v: ControllerView, ticks: Seq<(u64, i32)>) -> ControllerView
    decreases ticks.len(),
{
    if ticks.len() == 0 {
        v
    } else {
        drive(v.after_tick(ticks[0].0, Some(ticks[0].1), None), ticks.drop_first())
    }
}

/// Number of those ticks on which the active step of a running profile is
/// complete.
pub open spec fn completions(v: ControllerView, ticks: Seq<(u64, i32)>) -> nat
    decreases ticks.len(),
{
    if ticks.len() == 0 {
        0
    } else {
        let w = v.with_reading(Some(ticks[0].1));
        let done = w.status == Status::Running && w.with_step_setpoint().step_completed(
            ticks[0].0,
        );
        (if done {
            1nat
        } else {
            0nat
        }) + completions(v.after_tick(ticks[0].0, Some(ticks[0].1), None), ticks.drop_first())
    }
}

/// An idle controller ignores a start command while the door is open.
pub proof fn lemma_start_needs_closed_door(v: ControllerView, now: u64)
    requires
        v.status == Status::Idle,
        !v.door_closed,
    ensures
        v.after_event(Event::StartCommand, now) == v,
        v.after_event(Event::StartCommand, now).status == Status::Idle,
{
}

/// Opening the door while a profile runs is an error with a message, unless
/// the active step is the cooling step, where the run goes on.
pub proof fn lemma_door_interlock(v: ControllerView, now: u64)
    requires
        v.wf(),
        v.status == Status::Running,
    ensures
        v.step().step_name != StepName::Cooling ==> {
            let w = v.after_event(Event::DoorStateChanged(false), now);
            &&& w.status == Status::Error
            &&& w.error_message.len() > 0
            &&& w.heater_power == 0
            &&& !w.door_closed
        },
        v.step().step_name == StepName::Cooling ==> v.after_event(
            Event::DoorStateChanged(false),
            now,
        ).status == Status::Running,
{
    reveal_strlit("door opened while running");
}

/// A finished controller stays finished, with the heater off, through ticks
/// without events, and none of them completes a step.
pub proof fn lemma_finished_stays(v: ControllerView, ticks: Seq<(u64, i32)>)
    requires
        v.status == Status::Finished,
    ensures
        drive(v, ticks).status == Status::Finished,
        drive(v, ticks).heater_power == v.heater_power,
        completions(v, ticks) == 0,
    decreases ticks.len(),
{
    if ticks.len() > 0 {
        lemma_finished_stays(v.after_tick(ticks[0].0, Some(ticks[0].1), None), ticks.drop_first());
    }
}

/// Driving a running profile through ticks without events: it keeps running
/// at the step reached after as many steps as ticks completed one, and it
/// is finished, with the heater off, exactly when all remaining steps have
/// completed.
pub proof fn lemma_profile_completion(v: ControllerView, ticks: Seq<(u64, i32)>)
    requires
        v.profile.wf(),
        v.current_step_index < v.profile.steps.len(),
        v.status == Status::Running,
    ensures
        v.current_step_index + completions(v, ticks) <= v.profile.steps.len(),
        v.current_step_index + completions(v, ticks) < v.profile.steps.len() ==> {
            &&& drive(v, ticks).status == Status::Running
            &&& drive(v, ticks).current_step_index == v.current_step_index + completions(v, ticks)
            &&& drive(v, ticks).profile == v.profile
        },
        v.current_step_index + completions(v, ticks) == v.profile.steps.len() ==> {
            &&& drive(v, ticks).status == Status::Finished
            &&& drive(v, ticks).heater_power == 0
        },
    decreases ticks.len(),
{
    if ticks.len() > 0 {
        let next = v.after_tick(ticks[0].0, Some(ticks[0].1), None);
        let w = v.with_reading(Some(ticks[0].1));
        if w.with_step_setpoint().step_completed(ticks[0].0) && w.current_step_index + 1
            >= w.profile.steps.len() {
            assert(next.status == Status::Finished);
            lemma_finished_stays(next, ticks.drop_first());
        } else {
            lemma_profile_completion(next, ticks.drop_first());
        }
    }
}

/// A reset returns a finished controller to idle with the heater off.
pub proof fn lemma_reset_from_finished(v: ControllerView, now: u64)
    requires
        v.status == Status::Finished,
    ensures
        v.after_event(Event::ResetCommand, now).status == Status::Idle,
        v.after_event(Event::ResetCommand, now).heater_power == 0,
{
}

/// What a tick or an event asks the caller to do.
#[derive(Debug)]
pub struct Effects {
    /// Commands for the output collaborator, in order.
    pub outputs: Vec<OutputCommand>,
    /// Commands for the heater scheduler, in order.
    pub heater_commands: Vec<HeaterCommand>,
    /// A newly loaded profile to announce.
    pub active_profile: Option<Profile>,
    /// A profile listing to forward.
    pub profile_list: Option<Vec<String>>,
}

/// Everything a tick produces.
#[derive(Debug)]
pub struct TickOutput {
    pub effects: Effects,
    /// The snapshot to publish.
    pub state: ReflowControllerState,
}

/// The reflow process controller.
#[derive(Debug)]
pub struct ReflowController {
    pub target_temperature: i32,
    pub current_temperature: i32,
    pub door_closed: bool,
    pub fan: bool,
    pub light: bool,
    pub heater_power: u8,
    pub profile: Profile,
    pub current_step_index: usize,
    pub status: Status,
    pub profile_start_millis: u64,
    pub step_start_millis: u64,
    pub pid_controller: PidController,
    pub error_message: String,
    pub sd_reader: SdProfileReader,
}

impl View for ReflowController {
    type V = ControllerView;

    open spec fn view(&self) -> ControllerView {
        ControllerView {
            target_temperature: self.target_temperature,
            current_temperature: self.current_temperature,
            door_closed: self.door_closed,
            fan: self.fan,
            light: self.light,
            heater_power: self.heater_power,
            profile: self.profile@,
            current_step_index: self.current_step_index,
            status: self.status,
            profile_start_millis: self.profile_start_millis,
            step_start_millis: self.step_start_millis,
            pid: self.pid_controller,
            error_message: self.error_message@,
        }
    }
}

impl ReflowController {
    pub open spec fn wf(&self) -> bool {
        self@.wf()
    }

    /// A controller in the initializing status, with the default profile
    /// and the default PID gains.
    pub fn new() -> (r: Self)
        ensures
            r.wf(),
            r@.status == Status::Initializing,
            r@.profile == default_profile(),
            r@.current_step_index == 0,
            r@.target_temperature == UNKNOWN_TEMPERATURE,
            r@.current_temperature == UNKNOWN_TEMPERATURE,
            !r@.door_closed && !r@.fan && !r@.light,
            r@.heater_power == 0,
            r@.profile_start_millis == 0,
            r@.step_start_millis == 0,
            r@.pid == PidController::fresh(DEFAULT_KP, DEFAULT_KI, DEFAULT_KD),
            r@.error_message.len() == 0,
    {
        ReflowController {
            target_temperature: UNKNOWN_TEMPERATURE,
            current_temperature: UNKNOWN_TEMPERATURE,
            door_closed: false,
            fan: false,
            light: false,
            heater_power: 0,
            profile: create_default_profile(),
            current_step_index: 0,
            status: Status::Initializing,
            profile_start_millis: 0,
            step_start_millis: 0,
            pid_controller: PidController::new(DEFAULT_KP, DEFAULT_KI, DEFAULT_KD),
            error_message: String::new(),
            sd_reader: SdProfileReader::new(),
        }
    }

    /// File names of the profiles the store offers.
    pub fn get_available_profiles(&self) -> (r: Result<Vec<String>, SdProfileError>)
        ensures
            r is Ok,
            r.unwrap()@.len() == stored_names().len(),
            forall|i: int| 0 <= i < stored_names().len() ==> r.unwrap()@[i]@ == stored_names()[i],
    {
        self.sd_reader.list_profiles()
    }

    /// Initializes the profile store.
    pub fn init_sd_card(&mut self) -> (r: Result<(), SdProfileError>)
        requires
            old(self).wf(),
        ensures
            final(self).wf(),
            final(self)@ == old(self)@,
            final(self).sd_reader.initialized,
            r is Ok,
    {
        self.sd_reader.init()
    }

    /// Stores a new temperature reading.
    pub fn handle_new_temperature(&mut self, temperature: i32)
        requires
            old(self).wf(),
        ensures
            final(self).wf(),
            final(self)@ == old(self)@.with_reading(Some(temperature)),
    {
        self.current_temperature = temperature;
    }

    fn enter_idle_state(&mut self)
        requires
            old(self).wf(),
        ensures
            final(self).wf(),
            final(self)@ == old(self)@.enter_idle(),
    {
        self.status = Status::Idle;
        self.heater_power = 0;
        self.fan = false;
        self.light = false;
        self.target_temperature = AMBIENT_TEMPERATURE;
    }

    fn enter_running_state(&mut self, now: u64)
        requires
            old(self).wf(),
        ensures
            final(self).wf(),
            final(self)@ == old(self)@.enter_running(now),
    {
        self.status = Status::Running;
        self.fan = false;
        self.profile_start_millis = now;
        self.step_start_millis = now;
        self.current_step_index = 0;
        self.target_temperature = self.profile.steps[0].set_temperature;
        self.pid_controller.reset_integral();
    }

    fn exit_running_state(&mut self)
        requires
            old(self).wf(),
        ensures
            final(self).wf(),
            final(self)@ == old(self)@.exit_running(),
    {
        self.heater_power = 0;
        self.fan = true;
        self.light = false;
        self.target_temperature = AMBIENT_TEMPERATURE;
    }

    fn enter_finished_state(&mut self, outputs: &mut Vec<OutputCommand>)
        requires
            old(self).wf(),
        ensures
            final(self).wf(),
            final(self)@ == old(self)@.enter_finished(),
            final(outputs)@ == old(outputs)@.push(
                OutputCommand::SetStartButtonLight(
                    LedState::Blink(FINISHED_BLINK_MILLIS, FINISHED_BLINK_MILLIS),
                ),
            ),
    {
        self.status = Status::Finished;
        self.heater_power = 0;
        self.fan = true;
        self.light = false;
        self.target_temperature = AMBIENT_TEMPERATURE;
        outputs.push(
            OutputCommand::SetStartButtonLight(
                LedState::Blink(FINISHED_BLINK_MILLIS, FINISHED_BLINK_MILLIS),
            ),
        );
    }

    fn enter_error_state(&mut self, message: &str, outputs: &mut Vec<OutputCommand>)
        requires
            old(self).wf(),
        ensures
            final(self).wf(),
            final(self)@ == old(self)@.enter_error(message@),
            final(outputs)@ == old(outputs)@.push(
                OutputCommand::SetStartButtonLight(
                    LedState::Blink(ERROR_BLINK_MILLIS, ERROR_BLINK_MILLIS),
                ),
            ),
    {
        self.error_message = message.to_owned();
        self.status = Status::Error;
        self.heater_power = 0;
        self.fan = false;
        self.light = false;
        self.target_temperature = 0;
        outputs.push(
            OutputCommand::SetStartButtonLight(
                LedState::Blink(ERROR_BLINK_MILLIS, ERROR_BLINK_MILLIS),
            ),
        );
    }

    fn exit_error_state(&mut self)
        requires
            old(self).wf(),
        ensures
            final(self).wf(),
            final(self)@ == old(self)@.exit_error(),
    {
        self.status = Status::Idle;
        self.heater_power = 0;
        self.fan = false;
        self.light = false;
        self.target_temperature = 0;
        self.error_message = String::new();
    }

    /// Whether the active step is complete at time `now`.
    pub fn step_completed(&self, now: u64) -> (r: bool)
        requires
            self.wf(),
        ensures
            r == self@.step_completed(now),
    {
        let step = self.profile.steps[self.current_step_index];
        let elapsed: u64 = if now >= self.step_start_millis {
            (now - self.step_start_millis) / 1000
        } else {
            0
        };
        let reached = if step.is_cooling {
            self.current_temperature <= step.set_temperature
        } else {
            self.current_temperature as i64 >= step.set_temperature as i64
                - HEATING_TOLERANCE as i64
        };
        elapsed >= step.step_time as u64 && reached
    }

    fn update_setpoint(&mut self)
        requires
            old(self).wf(),
        ensures
            final(self).wf(),
            final(self)@ == old(self)@.with_step_setpoint(),
    {
        self.target_temperature = self.profile.steps[self.current_step_index].set_temperature;
    }

    fn running(&mut self, now: u64, outputs: &mut Vec<OutputCommand>)
        requires
            old(self).wf(),
            old(self)@.status == Status::Running,
        ensures
            final(self).wf(),
            final(self)@ == old(self)@.after_running(now),
            final(outputs)@ == old(outputs)@ + old(self)@.handler_outputs(now),
    {
        self.update_setpoint();
        if self.step_completed(now) {
            if self.current_step_index + 1 < self.profile.steps.len() {
                self.fan = self.profile.steps[self.current_step_index + 1].has_fan;
                self.current_step_index = self.current_step_index + 1;
                self.step_start_millis = now;
                self.update_setpoint();
                self.pid_controller.reset_integral();
            } else {
                self.exit_running_state();
                self.enter_finished_state(outputs);
                assert(outputs@ =~= old(outputs)@ + old(self)@.handler_outputs(now));
                return;
            }
        }
        self.heater_power = self.pid_controller.update(
            self.target_temperature,
            self.current_temperature,
        );
        assert(outputs@ =~= old(outputs)@ + old(self)@.handler_outputs(now));
    }

    /// Runs the handler of the current status.
    pub fn run_status_handler(&mut self, now: u64, outputs: &mut Vec<OutputCommand>)
        requires
            old(self).wf(),
        ensures
            final(self).wf(),
            final(self)@ == old(self)@.after_handler(now),
            final(outputs)@ == old(outputs)@ + old(self)@.handler_outputs(now),
    {
        match self.status {
            Status::Initializing => {
                if now >= SETTLE_MILLIS {
                    self.enter_idle_state();
                }
            },
            Status::Idle => {
                let light = if self.door_closed {
                    LedState::LedOn
                } else {
                    LedState::LedOff
                };
                outputs.push(OutputCommand::SetStartButtonLight(light));
            },
            Status::Running => {
                self.running(now, outputs);
            },
            Status::Finished => {},
            Status::Error => {
                self.heater_power = 0;
                self.fan = false;
                self.light = false;
                self.target_temperature = 0;
            },
        }
        assert(outputs@ =~= old(outputs)@ + old(self)@.handler_outputs(now));
    }

    /// Handles one event at time `now`.
    pub fn handle_event(&mut self, event: Event, now: u64, effects: &mut Effects)
        requires
            old(self).wf(),
        ensures
            final(self).wf(),
            final(self)@ == old(self)@.after_event(event, now),
            final(effects).outputs@ == old(effects).outputs@ + old(self)@.event_outputs(event),
            final(effects).heater_commands@ == old(effects).heater_commands@ + old(
                self,
            )@.event_heater_commands(event),
            ({
                let loaded = old(self)@.status == Status::Idle && event is LoadProfile
                    && stored_profile(event->LoadProfile_0@) is Ok;
                &&& loaded ==> (final(effects).active_profile matches Some(p) && p@
                    == final(self)@.profile)
                &&& !loaded ==> final(effects).active_profile == old(effects).active_profile
            }),
            final(effects).profile_list matches Some(names) ==> event is ListProfilesRequest
                || old(effects).profile_list == Some(names),
            event is ListProfilesRequest ==> (final(effects).profile_list matches Some(names) && (
            names@.len() == stored_names().len() && forall|i: int|
                0 <= i < stored_names().len() ==> names@[i]@ == stored_names()[i])),
            !(event is ListProfilesRequest) ==> final(effects).profile_list
                == old(effects).profile_list,
    {
        let ghost before = self@;
        match event {
            Event::StartCommand => {
                if self.status == Status::Idle && self.door_closed {
                    self.enter_running_state(now);
                }
            },
            Event::StopCommand => {
                if self.status == Status::Running {
                    self.exit_running_state();
                    self.enter_idle_state();
                }
            },
            Event::ResetCommand => {
                if self.status == Status::Finished {
                    self.enter_idle_state();
                } else if self.status == Status::Error {
                    self.exit_error_state();
                }
            },
            Event::DoorStateChanged(closed) => {
                let violation = !closed && self.status == Status::Running
                    && self.profile.steps[self.current_step_index].step_name != StepName::Cooling;
                self.door_closed = closed;
                if violation {
                    self.enter_error_state("door opened while running", &mut effects.outputs);
                }
            },
            Event::LoadProfile(name) => {
                if self.status == Status::Idle {
                    match self.sd_reader.read_profile(name.as_str()) {
                        Ok(profile) => {
                            effects.active_profile = Some(profile.copy());
                            self.profile = profile;
                        },
                        Err(err) => {
                            self.enter_error_state(err.message(), &mut effects.outputs);
                        },
                    }
                }
            },
            Event::ListProfilesRequest => {
                match self.sd_reader.list_profiles() {
                    Ok(profiles) => {
                        effects.profile_list = Some(profiles);
                    },
                    Err(_) => {
                        effects.profile_list = Some(Vec::new());
                    },
                }
            },
            Event::SimulationReset => {
                effects.heater_commands.push(HeaterCommand::SimulationReset);
            },
            Event::UpdatePidParameters { kp, ki, kd } => {
                self.pid_controller.update_parameters(kp, ki, kd, true);
                effects.heater_commands.push(HeaterCommand::UpdatePidParameters { kp, ki, kd });
            },
        }
        assert(effects.outputs@ =~= old(effects).outputs@ + before.event_outputs(event));
        assert(effects.heater_commands@ =~= old(effects).heater_commands@
            + before.event_heater_commands(event));
    }

    /// The snapshot of the controller at time `now`.
    pub fn snapshot(&self, now: u64) -> (r: ReflowControllerState)
        requires
            self.wf(),
        ensures
            r.status == self@.status,
            r.target_temperature == self@.target_temperature,
            r.current_temperature == self@.current_temperature,
            r.door_closed == self@.door_closed,
            r.fan == self@.fan,
            r.light == self@.light,
            r.heater_power == self@.heater_power,
            r.timer == self@.timer(now),
            r.current_step@ == crate::profile::step_label(self@.step().step_name),
            r.current_profile@ == self@.profile.name,
            r.error_message@ == self@.error_message,
    {
        let timer: u32 = if self.status == Status::Idle || now < self.profile_start_millis {
            0
        } else {
            let seconds: u64 = (now - self.profile_start_millis) / 1000;
            if seconds > u32::MAX as u64 {
                u32::MAX
            } else {
                seconds as u32
            }
        };
        ReflowControllerState {
            status: self.status,
            target_temperature: self.target_temperature,
            current_temperature: self.current_temperature,
            door_closed: self.door_closed,
            fan: self.fan,
            light: self.light,
            heater_power: self.heater_power,
            timer,
            current_step: self.profile.steps[self.current_step_index].step_name.to_str(),
            current_profile: self.profile.name.clone(),
            error_message: self.error_message.clone(),
        }
    }

    /// Runs one tick at time `now` (milliseconds since start-up): stores
    /// `reading`, handles `event`, runs the status handler, and returns the
    /// commands to send and the snapshot to publish.
    pub fn tick(&mut self, now: u64, reading: Option<i32>, event: Option<Event>) -> (r: TickOutput)
        requires
            old(self).wf(),
        ensures
            final(self).wf(),
            final(self)@ == old(self)@.after_tick(now, reading, event),
            ({
                let v = old(self)@.with_reading(reading);
                let w = v.after_optional_event(event, now);
                &&& r.effects.outputs@ == (match event {
                    Some(e) => v.event_outputs(e),
                    None => seq![],
                }) + w.handler_outputs(now)
                &&& r.effects.heater_commands@ == (match event {
                    Some(e) => v.event_heater_commands(e),
                    None => seq![],
                }) + seq![
                    HeaterCommand::SetFan(final(self)@.fan),
                    HeaterCommand::SetPower(final(self)@.heater_power),
                ]
                &&& (r.effects.active_profile is Some <==> v.loads_profile(event))
                &&& (r.effects.active_profile matches Some(p) ==> p@ == w.profile)
                &&& (r.effects.profile_list is Some <==> event matches Some(
                    Event::ListProfilesRequest,
                ))
                &&& (r.effects.profile_list matches Some(names) ==> names@.len()
                    == stored_names().len() && forall|i: int|
                    0 <= i < stored_names().len() ==> names@[i]@ == stored_names()[i])
            }),
            r.state.status == final(self)@.status,
            r.state.heater_power == final(self)@.heater_power,
            r.state.fan == final(self)@.fan,
            r.state.target_temperature == final(self)@.target_temperature,
            r.state.current_temperature == final(self)@.current_temperature,
            r.state.door_closed == final(self)@.door_closed,
            r.state.light == final(self)@.light,
            r.state.timer == final(self)@.timer(now),
            r.state.current_profile@ == final(self)@.profile.name,
            r.state.error_message@ == final(self)@.error_message,
    {
        let mut effects = Effects {
            outputs: Vec::new(),
            heater_commands: Vec::new(),
            active_profile: None,
            profile_list: None,
        };
        if let Some(t) = reading {
            self.handle_new_temperature(t);
        }
        match event {
            Some(e) => {
                self.handle_event(e, now, &mut effects);
            },
            None => {},
        }
        self.run_status_handler(now, &mut effects.outputs);
        effects.heater_commands.push(HeaterCommand::SetFan(self.fan));
        effects.heater_commands.push(HeaterCommand::SetPower(self.heater_power));
        let state = self.snapshot(now);
        proof {
            let v = old(self)@.with_reading(reading);
            assert(effects.outputs@ =~= (match event {
                Some(e) => v.event_outputs(e),
                None => seq![],
            }) + v.after_optional_event(event, now).handler_outputs(now));
            assert(effects.heater_commands@ =~= (match event {
                Some(e) => v.event_heater_commands(e),
                None => seq![],
            }) + seq![HeaterCommand::SetFan(self@.fan), HeaterCommand::SetPower(self@.heater_power)]);
        }
        TickOutput { effects, state }
    }
}

} // verus!
