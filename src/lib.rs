//! Control core of a reflow-soldering oven: the process state machine, a
//! fixed-point PID temperature controller and a duty-cycle relay scheduler.
//!
//! Temperatures are carried in thousandths of a degree Celsius and controller
//! gains in thousandths, so that every computation is exact integer arithmetic.
use vstd::prelude::*;

pub mod commands;
pub mod controller;
pub mod heater;
pub mod mcp9600;
pub mod pid;
pub mod profile;
pub mod profile_parser;
pub mod relay;
pub mod relay_schedule;
pub mod sd_profile_reader;
pub mod text;

verus! {

/// Version string of the controller firmware.
pub const VERSION: &'static str = "v0.1";

/// Length of one system tick in milliseconds: the relay slot, the timer
/// cadence and the elapsed-time accounting all use it.
pub const SYSTEM_TICK_MILLIS: u32 = 100;

/// Phase of the reflow process.
#[derive(Clone, Copy, Debug, PartialEq, Eq, Structural)]
pub enum Status {
    Initializing,
    Idle,
    Running,
    Finished,
    Error,
}

/// Pattern of an indicator light: steady on, steady off, or blinking with
/// the given on and off durations in milliseconds.
#[derive(Clone, Copy, Debug, PartialEq, Eq, Structural)]
pub enum LedState {
    LedOn,
    LedOff,
    Blink(u32, u32),
}

/// Commands for the output collaborator.
#[derive(Clone, Copy, Debug, PartialEq, Eq, Structural)]
pub enum OutputCommand {
    SetFan(bool),
    SetLight(bool),
    SetBuzzer(bool),
    SetStartButtonLight(LedState),
}

/// Commands for the heater scheduler.
#[derive(Clone, Copy, Debug, PartialEq, Eq, Structural)]
pub enum HeaterCommand {
    /// Heater power in percent, at most 100.
    SetPower(u8),
    SetFan(bool),
    SimulationReset,
    /// New PID gains, in thousandths.
    UpdatePidParameters { kp: u32, ki: u32, kd: u32 },
}

/// Operator, door and profile intents, consumed by the controller.
#[derive(Clone, Debug, PartialEq, Eq)]
pub enum Event {
    StartCommand,
    StopCommand,
    ResetCommand,
    /// `true`: the door is now closed; `false`: it was opened.
    DoorStateChanged(bool),
    /// File name of the profile to load.
    LoadProfile(String),
    ListProfilesRequest,
    SimulationReset,
    /// New PID gains, in thousandths.
    UpdatePidParameters { kp: u32, ki: u32, kd: u32 },
}

/// Snapshot of the controller published once per tick.
#[derive(Clone, Debug)]
pub struct ReflowControllerState {
    pub status: Status,
    /// Setpoint, in thousandths of a degree Celsius.
    pub target_temperature: i32,
    /// Last measurement, in thousandths of a degree Celsius.
    pub current_temperature: i32,
    pub door_closed: bool,
    pub fan: bool,
    pub light: bool,
    /// Heater power in percent, at most 100.
    pub heater_power: u8,
    /// Seconds since the profile started; 0 while idle.
    pub timer: u32,
    pub current_step: &'static str,
    pub current_profile: String,
    /// Empty unless the status is `Error`.
    pub error_message: String,
}

} // verus!
