//! Decisions of the heater scheduler: which schedule to replay, what a
//! command changes, and when a failed relay write is tried again. The
//! caller performs the relay writes and the waiting.
use vstd::prelude::*;

use crate::relay_schedule::{bank_slots, RelaySchedule, SLOTS};
use crate::HeaterCommand;

verus! {

/// Number of times a failed relay write is tried again.
pub const MAX_RETRIES: usize = 2;

/// What the driver does in answer to a command.
#[derive(Clone, Copy, Debug, PartialEq, Eq, Structural)]
pub enum CommandAction {
    /// Nothing beyond the scheduler's own state.
    Nothing,
    /// Switch the fan, through the retrying path.
    SetFan(bool),
    /// Switch every heating bank off.
    AllBanksOff,
}

/// What the driver does during the next cycle.
#[derive(Clone, Copy, Debug, PartialEq, Eq, Structural)]
pub enum CycleAction {
    /// Replay the cached schedule, slot by slot.
    RunSchedule,
    /// Keep every heating bank off for one tick.
    HoldOff,
}

/// State of the heater scheduler: the power level in force, the rotation
/// counter and the cached schedule for both.
#[derive(Debug)]
pub struct HeaterScheduler {
    pub current_power: u8,
    pub rotation: u8,
    pub schedule: RelaySchedule,
}

/// A schedule whose banks are all off is the schedule for zero power.
proof fn lemma_all_off_is_zero_power(s: RelaySchedule, rotation: int)
    requires
        s.wf(),
        forall|b: int, t: int| 0 <= b < 3 && 0 <= t < SLOTS ==> !(#[trigger] s.bank(b)[t]),
    ensures
        s.is_schedule_for(0, rotation),
{
    assert forall|b: int| 0 <= b < 3 implies #[trigger] s.bank(b) == bank_slots(0, rotation, b) by {
        assert(s.bank(b) =~= bank_slots(0, rotation, b));
    }
}

impl HeaterScheduler {
    pub open spec fn wf(&self) -> bool {
        &&& self.current_power <= 100
        &&& self.schedule.wf()
        &&& self.schedule.is_schedule_for(self.current_power as int, self.rotation as int)
    }

    /// A scheduler at zero power with the rotation counter at zero.
    pub fn new() -> (r: Self)
        ensures
            r.wf(),
            r.current_power == 0,
            r.rotation == 0,
    {
        let schedule = RelaySchedule::new();
        proof {
            lemma_all_off_is_zero_power(schedule, 0);
        }
        HeaterScheduler { current_power: 0, rotation: 0, schedule }
    }

    /// Applies a command. A new power level advances the rotation counter
    /// (wrapping) and recomputes the schedule; an invalid or unchanged power
    /// level keeps everything as it is.
    pub fn handle_command(&mut self, command: HeaterCommand) -> (r: CommandAction)
        requires
            old(self).wf(),
        ensures
            final(self).wf(),
            match command {
                HeaterCommand::SetPower(p) => {
                    &&& r == CommandAction::Nothing
                    &&& if p <= 100 && p != old(self).current_power {
                        &&& final(self).current_power == p
                        &&& final(self).rotation as int == (old(self).rotation + 1) % 256
                    } else {
                        &&& final(self).current_power == old(self).current_power
                        &&& final(self).rotation == old(self).rotation
                    }
                },
                HeaterCommand::SetFan(on) => {
                    &&& r == CommandAction::SetFan(on)
                    &&& final(self).current_power == old(self).current_power
                    &&& final(self).rotation == old(self).rotation
                },
                HeaterCommand::SimulationReset => {
                    &&& r == CommandAction::AllBanksOff
                    &&& final(self).current_power == 0
                    &&& final(self).rotation == 0
                },
                HeaterCommand::UpdatePidParameters { .. } => {
                    &&& r == CommandAction::Nothing
                    &&& final(self).current_power == old(self).current_power
                    &&& final(self).rotation == old(self).rotation
                },
            },
    {
        match command {
            HeaterCommand::SetPower(power) => {
                if power <= 100 && power != self.current_power {
                    self.current_power = power;
                    self.rotation = self.rotation.wrapping_add(1);
                    self.schedule = RelaySchedule::calculate_for_power(power, self.rotation);
                }
                CommandAction::Nothing
            },
            HeaterCommand::SetFan(on) => CommandAction::SetFan(on),
            HeaterCommand::SimulationReset => {
                self.current_power = 0;
                self.rotation = 0;
                let schedule = RelaySchedule::new();
                proof {
                    lemma_all_off_is_zero_power(schedule, 0);
                }
                self.schedule = schedule;
                CommandAction::AllBanksOff
            },
            HeaterCommand::UpdatePidParameters { .. } => CommandAction::Nothing,
        }
    }

    /// What to do during the next cycle: replay the schedule while the
    /// power is above zero, else hold the banks off.
    pub fn next_cycle(&self) -> (r: CycleAction)
        ensures
            r == if self.current_power > 0 {
                CycleAction::RunSchedule
            } else {
                CycleAction::HoldOff
            },
    {
        if self.current_power > 0 {
            CycleAction::RunSchedule
        } else {
            CycleAction::HoldOff
        }
    }

    /// Fail-safe after a cycle failed: the power drops to zero.
    pub fn cycle_failed(&mut self)
        requires
            old(self).wf(),
        ensures
            final(self).wf(),
            final(self).current_power == 0,
            final(self).rotation == old(self).rotation,
    {
        self.current_power = 0;
        let schedule = RelaySchedule::new();
        proof {
            lemma_all_off_is_zero_power(schedule, self.rotation as int);
        }
        self.schedule = schedule;
    }

    /// States of the three heating banks during `slot` of the cached
    /// schedule.
    pub fn slot_states(&self, slot: usize) -> (r: (bool, bool, bool))
        requires
            self.wf(),
            slot < SLOTS,
        ensures
            r == (self.schedule.bank(0)[slot as int], self.schedule.bank(1)[slot as int],
            self.schedule.bank(2)[slot as int]),
    {
        (self.schedule.relay_2[slot], self.schedule.relay_3[slot], self.schedule.relay_4[slot])
    }
}

/// Counter of the attempts of a relay write that may be retried.
#[derive(Clone, Copy, Debug, PartialEq, Eq, Structural)]
pub struct Retry {
    pub attempts: usize,
    pub max_retries: usize,
}

impl Retry {
    /// A counter that allows `max_retries` retries after the first attempt.
    pub fn new(max_retries: usize) -> (r: Self)
        ensures
            r.attempts == 0,
            r.max_retries == max_retries,
    {
        Retry { attempts: 0, max_retries }
    }

    /// Records a failed attempt; returns whether to try again.
    pub fn after_failure(&mut self) -> (r: bool)
        requires
            old(self).attempts <= old(self).max_retries,
        ensures
            r == (old(self).attempts < old(self).max_retries),
            r ==> final(self).attempts == old(self).attempts + 1,
            !r ==> final(self).attempts == old(self).attempts,
            final(self).max_retries == old(self).max_retries,
            final(self).attempts <= final(self).max_retries,
    {
        if self.attempts < self.max_retries {
            self.attempts = self.attempts + 1;
            true
        } else {
            false
        }
    }
}

} // verus!
