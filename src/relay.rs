//! Command encoding of the four-relay board: which byte to send for a relay,
//! how to read its status byte, and whether a relay must be toggled.
use vstd::prelude::*;

verus! {

/// Bus address of the relay board.
pub const RELAY_BOARD_ADDR: u8 = 0x08;

/// Failure of a relay-board operation, over the bus error `E`.
#[derive(Debug)]
pub enum Error<E> {
    I2c(E),
    InvalidRelayNumber,
    /// The board answered a status query with an unknown byte.
    UnknownStatus(u8),
}

/// Commands the relay board understands.
#[derive(Clone, Copy, Debug, PartialEq, Eq, Structural)]
pub enum RelayCommand {
    RelayOneToggle,
    RelayTwoToggle,
    RelayThreeToggle,
    RelayFourToggle,
    RelayOneStatus,
    RelayTwoStatus,
    RelayThreeStatus,
    RelayFourStatus,
    RelayAllOff,
    RelayAllOn,
    RelayOnePWM,
    RelayTwoPWM,
    RelayThreePWM,
    RelayFourPWM,
}

/// The byte that encodes a command.
pub open spec fn command_code(c: RelayCommand) -> u8 {
    match c {
        RelayCommand::RelayOneToggle => 0x01,
        RelayCommand::RelayTwoToggle => 0x02,
        RelayCommand::RelayThreeToggle => 0x03,
        RelayCommand::RelayFourToggle => 0x04,
        RelayCommand::RelayOneStatus => 0x05,
        RelayCommand::RelayTwoStatus => 0x06,
        RelayCommand::RelayThreeStatus => 0x07,
        RelayCommand::RelayFourStatus => 0x08,
        RelayCommand::RelayAllOff => 0x0A,
        RelayCommand::RelayAllOn => 0x0B,
        RelayCommand::RelayOnePWM => 0x10,
        RelayCommand::RelayTwoPWM => 0x11,
        RelayCommand::RelayThreePWM => 0x12,
        RelayCommand::RelayFourPWM => 0x13,
    }
}

impl RelayCommand {
    /// The byte sent for this command.
    pub fn code(&self) -> (r: u8)
        ensures
            r == command_code(*self),
    {
        match self {
            RelayCommand::RelayOneToggle => 0x01,
            RelayCommand::RelayTwoToggle => 0x02,
            RelayCommand::RelayThreeToggle => 0x03,
            RelayCommand::RelayFourToggle => 0x04,
            RelayCommand::RelayOneStatus => 0x05,
            RelayCommand::RelayTwoStatus => 0x06,
            RelayCommand::RelayThreeStatus => 0x07,
            RelayCommand::RelayFourStatus => 0x08,
            RelayCommand::RelayAllOff => 0x0A,
            RelayCommand::RelayAllOn => 0x0B,
            RelayCommand::RelayOnePWM => 0x10,
            RelayCommand::RelayTwoPWM => 0x11,
            RelayCommand::RelayThreePWM => 0x12,
            RelayCommand::RelayFourPWM => 0x13,
        }
    }
}

/// State of one relay.
#[derive(Clone, Copy, Debug, PartialEq, Eq, Structural)]
pub enum RelayStatus {
    Off,
    On,
}

/// Whether `relay` names one of the four relays (1 to 4).
pub open spec fn valid_relay(relay: u8) -> bool {
    1 <= relay <= 4
}

/// The toggle command of `relay`.
pub fn toggle_command<E>(relay: u8) -> (r: Result<RelayCommand, Error<E>>)
    ensures
        valid_relay(relay) <==> r is Ok,
        r matches Ok(c) ==> command_code(c) == relay,
        r matches Err(e) ==> e is InvalidRelayNumber,
{
    match relay {
        1 => Ok(RelayCommand::RelayOneToggle),
        2 => Ok(RelayCommand::RelayTwoToggle),
        3 => Ok(RelayCommand::RelayThreeToggle),
        4 => Ok(RelayCommand::RelayFourToggle),
        _ => Err(Error::InvalidRelayNumber),
    }
}

/// The status query of `relay`.
pub fn status_command<E>(relay: u8) -> (r: Result<RelayCommand, Error<E>>)
    ensures
        valid_relay(relay) <==> r is Ok,
        r matches Ok(c) ==> command_code(c) == relay + 4,
        r matches Err(e) ==> e is InvalidRelayNumber,
{
    match relay {
        1 => Ok(RelayCommand::RelayOneStatus),
        2 => Ok(RelayCommand::RelayTwoStatus),
        3 => Ok(RelayCommand::RelayThreeStatus),
        4 => Ok(RelayCommand::RelayFourStatus),
        _ => Err(Error::InvalidRelayNumber),
    }
}

/// The register that holds the PWM value of `relay`.
pub fn pwm_register<E>(relay: u8) -> (r: Result<u8, Error<E>>)
    ensures
        valid_relay(relay) <==> r is Ok,
        r matches Ok(b) ==> b == command_code(RelayCommand::RelayOnePWM) + relay - 1,
        r matches Err(e) ==> e is InvalidRelayNumber,
{
    if relay < 1 || relay > 4 {
        Err(Error::InvalidRelayNumber)
    } else {
        Ok(RelayCommand::RelayOnePWM.code() + relay - 1)
    }
}

/// Decodes the answer to a status query.
pub fn decode_status<E>(byte: u8) -> (r: Result<RelayStatus, Error<E>>)
    ensures
        byte == 0x00 ==> r == Ok::<RelayStatus, Error<E>>(RelayStatus::Off),
        byte == 0x0F ==> r == Ok::<RelayStatus, Error<E>>(RelayStatus::On),
        byte != 0x00 && byte != 0x0F ==> (r matches Err(e) && e is UnknownStatus && e->UnknownStatus_0
            == byte),
{
    match byte {
        0x00 => Ok(RelayStatus::Off),
        0x0F => Ok(RelayStatus::On),
        _ => Err(Error::UnknownStatus(byte)),
    }
}

/// Whether a relay in `status` must be toggled to become on (`on`) or off.
pub fn needs_toggle(status: RelayStatus, on: bool) -> (r: bool)
    ensures
        r == (on != (status == RelayStatus::On)),
{
    match status {
        RelayStatus::On => !on,
        RelayStatus::Off => on,
    }
}

} // verus!
