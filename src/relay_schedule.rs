//! Duty-cycle schedule for the three heater relay banks.
//!
//! A power level of 0..=100 percent is approximated over a cycle of
//! `SLOTS` ticks on `BANKS` on/off banks. The bank that carries the
//! fractional duty rotates, so that switching wear spreads over all banks.
use vstd::prelude::*;

verus! {

/// Number of ticks in one duty cycle.
pub const SLOTS: usize = 10;

/// Number of relay banks that heat.
pub const BANKS: usize = 3;

/// Relay-time budget of a power level, in bank-slots: `power / 100 * 30`,
/// rounded down.
pub open spec fn budget(power: int) -> int {
    power * 3 / 10
}

/// Number of banks that stay on for the whole cycle.
pub open spec fn full_banks(power: int) -> int {
    budget(power) / 10
}

/// Number of slots for which the modulated bank is on.
pub open spec fn partial_slots(power: int) -> int {
    budget(power) % 10
}

/// The bank that carries the fractional duty for a rotation counter.
pub open spec fn modulated_bank(rotation: int) -> int {
    rotation % 3
}

/// Position of `bank` among the banks other than the modulated one.
pub open spec fn rank(bank: int, modulated: int) -> int {
    if bank < modulated {
        bank
    } else {
        bank - 1
    }
}

/// Whether `bank` is on during `slot` for the given power and rotation.
pub open spec fn bank_on(power: int, rotation: int, bank: int, slot: int) -> bool {
    if full_banks(power) >= 3 {
        true
    } else if bank == modulated_bank(rotation) {
        slot < partial_slots(power)
    } else {
        rank(bank, modulated_bank(rotation)) < full_banks(power)
    }
}

/// The slots of one bank over a cycle.
pub open spec fn bank_slots(power: int, rotation: int, bank: int) -> Seq<bool> {
    Seq::new(SLOTS as nat, |slot: int| bank_on(power, rotation, bank, slot))
}

/// Number of slots that are on.
pub open spec fn on_count(s: Seq<bool>) -> nat
    decreases s.len(),
{
    if s.len() == 0 {
        0
    } else {
        on_count(s.drop_last()) + if s.last() {
            1nat
        } else {
            0nat
        }
    }
}

/// On/off state of each heating bank for each slot of a cycle.
#[derive(Clone, Debug)]
pub struct RelaySchedule {
    pub relay_2: Vec<bool>,
    pub relay_3: Vec<bool>,
    pub relay_4: Vec<bool>,
}

impl RelaySchedule {
    /// The slots of bank `b` (0, 1 or 2).
    pub open spec fn bank(&self, b: int) -> Seq<bool> {
        if b == 0 {
            self.relay_2@
        } else if b == 1 {
            self.relay_3@
        } else {
            self.relay_4@
        }
    }

    pub open spec fn wf(&self) -> bool {
        &&& self.relay_2@.len() == SLOTS
        &&& self.relay_3@.len() == SLOTS
        &&& self.relay_4@.len() == SLOTS
    }

    /// Total number of bank-slots that are on over a cycle.
    pub open spec fn total_on(&self) -> nat {
        on_count(self.relay_2@) + on_count(self.relay_3@) + on_count(self.relay_4@)
    }

    /// Whether this is the schedule for `power` under `rotation`.
    pub open spec fn is_schedule_for(&self, power: int, rotation: int) -> bool {
        forall|b: int| 0 <= b < 3 ==> #[trigger] self.bank(b) == bank_slots(power, rotation, b)
    }

    /// A schedule with every bank off in every slot.
    pub fn new() -> (r: Self)
        ensures
            r.wf(),
            forall|b: int, s: int| 0 <= b < 3 && 0 <= s < SLOTS ==> !(#[trigger] r.bank(b)[s]),
    {
        let mut relay_2: Vec<bool> = Vec::new();
        let mut relay_3: Vec<bool> = Vec::new();
        let mut relay_4: Vec<bool> = Vec::new();
        let mut i: usize = 0;
        while i < SLOTS
            invariant
                i <= SLOTS,
                relay_2@.len() == i && relay_3@.len() == i && relay_4@.len() == i,
                forall|s: int| 0 <= s < i ==> !relay_2@[s] && !relay_3@[s] && !relay_4@[s],
            decreases SLOTS - i,
        {
            relay_2.push(false);
            relay_3.push(false);
            relay_4.push(false);
            i = i + 1;
        }
        RelaySchedule { relay_2, relay_3, relay_4 }
    }

    /// Computes the schedule for `power` percent, with the fractional duty
    /// carried by bank `rotation % 3`.
    pub fn calculate_for_power(power: u8, rotation: u8) -> (r: Self)
        requires
            power <= 100,
        ensures
            r.wf(),
            r.is_schedule_for(power as int, rotation as int),
    {
        let units: u8 = ((power as u32 * 3) / 10) as u8;
        let full: u8 = units / 10;
        let partial: u8 = units % 10;
        let modulated: u8 = rotation % 3;
        let mut relay_2: Vec<bool> = Vec::new();
        let mut relay_3: Vec<bool> = Vec::new();
        let mut relay_4: Vec<bool> = Vec::new();
        let mut slot: usize = 0;
        while slot < SLOTS
            invariant
                power <= 100,
                units == budget(power as int),
                full == full_banks(power as int),
                partial == partial_slots(power as int),
                modulated == modulated_bank(rotation as int),
                slot <= SLOTS,
                relay_2@.len() == slot && relay_3@.len() == slot && relay_4@.len() == slot,
                forall|s: int|
                    0 <= s < slot ==> relay_2@[s] == bank_on(power as int, rotation as int, 0, s)
                        && relay_3@[s] == bank_on(power as int, rotation as int, 1, s)
                        && relay_4@[s] == bank_on(power as int, rotation as int, 2, s),
            decreases SLOTS - slot,
        {
            relay_2.push(slot_state(full, partial, modulated, 0, slot));
            relay_3.push(slot_state(full, partial, modulated, 1, slot));
            relay_4.push(slot_state(full, partial, modulated, 2, slot));
            slot = slot + 1;
        }
        let r = RelaySchedule { relay_2, relay_3, relay_4 };
        assert(r.bank(0) =~= bank_slots(power as int, rotation as int, 0));
        assert(r.bank(1) =~= bank_slots(power as int, rotation as int, 1));
        assert(r.bank(2) =~= bank_slots(power as int, rotation as int, 2));
        r
    }
}

/// State of `bank` during `slot`, given the number of full banks, the
/// partial slot count and the modulated bank.
fn slot_state(full: u8, partial: u8, modulated: u8, bank: u8, slot: usize) -> (r: bool)
    requires
        modulated < 3,
        bank < 3,
    ensures
        r == if full >= 3 {
            true
        } else if bank == modulated {
            slot < partial
        } else {
            rank(bank as int, modulated as int) < full
        },
{
    if full >= 3 {
        true
    } else if bank == modulated {
        slot < partial as usize
    } else {
        let rank: u8 = if bank < modulated {
            bank
        } else {
            bank - 1
        };
        rank < full
    }
}

/// The first `n` slots of a cycle in which exactly the slots below `k` are on.
proof fn lemma_on_count_prefix(n: nat, k: int)
    ensures
        on_count(Seq::new(n, |s: int| s < k)) == if k < 0 {
            0
        } else if k < n {
            k
        } else {
            n as int
        },
    decreases n,
{
    let q = Seq::new(n, |s: int| s < k);
    if n > 0 {
        lemma_on_count_prefix((n - 1) as nat, k);
        assert(q.drop_last() =~= Seq::new((n - 1) as nat, |s: int| s < k));
    }
}

/// A cycle whose slots are all on, or all off.
proof fn lemma_on_count_const(n: nat, on: bool)
    ensures
        on_count(Seq::new(n, |s: int| on)) == if on {
            n
        } else {
            0
        },
    decreases n,
{
    if n > 0 {
        lemma_on_count_const((n - 1) as nat, on);
        assert(Seq::new(n, |s: int| on).drop_last() =~= Seq::new((n - 1) as nat, |s: int| on));
    }
}

/// How many slots a bank is on for.
proof fn lemma_bank_count(power: int, rotation: int, b: int)
    requires
        0 <= power <= 100,
        0 <= rotation,
        0 <= b < 3,
    ensures
        on_count(bank_slots(power, rotation, b)) == if full_banks(power) >= 3 {
            10
        } else if b == modulated_bank(rotation) {
            partial_slots(power)
        } else if rank(b, modulated_bank(rotation)) < full_banks(power) {
            10
        } else {
            0
        },
{
    let s = bank_slots(power, rotation, b);
    if full_banks(power) >= 3 {
        assert(s =~= Seq::new(10, |x: int| true));
        lemma_on_count_const(10, true);
    } else if b == modulated_bank(rotation) {
        assert(s =~= Seq::new(10, |x: int| x < partial_slots(power)));
        lemma_on_count_prefix(10, partial_slots(power));
    } else {
        let on = rank(b, modulated_bank(rotation)) < full_banks(power);
        assert(s =~= Seq::new(10, |x: int| on));
        lemma_on_count_const(10, on);
    }
}

/// The number of bank-slots that are on equals the relay-time budget.
pub proof fn lemma_total_on_is_budget(sched: RelaySchedule, power: int, rotation: int)
    requires
        0 <= power <= 100,
        0 <= rotation,
        sched.is_schedule_for(power, rotation),
    ensures
        sched.total_on() == budget(power),
{
    assert(sched.bank(0) == bank_slots(power, rotation, 0));
    assert(sched.bank(1) == bank_slots(power, rotation, 1));
    assert(sched.bank(2) == bank_slots(power, rotation, 2));
    lemma_bank_count(power, rotation, 0);
    lemma_bank_count(power, rotation, 1);
    lemma_bank_count(power, rotation, 2);
}

/// More power never means fewer on-slots: the total number of bank-slots
/// that are on does not decrease as the power level grows, whatever the
/// rotations; it is zero at 0 percent and every bank-slot at 100 percent.
pub proof fn lemma_on_slots_monotone(
    low: RelaySchedule,
    high: RelaySchedule,
    p: int,
    q: int,
    r1: int,
    r2: int,
)
    requires
        0 <= p <= q <= 100,
        0 <= r1,
        0 <= r2,
        low.is_schedule_for(p, r1),
        high.is_schedule_for(q, r2),
    ensures
        low.total_on() <= high.total_on(),
        p == 0 ==> low.total_on() == 0,
        q == 100 ==> high.total_on() == (SLOTS * BANKS) as nat,
{
    lemma_total_on_is_budget(low, p, r1);
    lemma_total_on_is_budget(high, q, r2);
    assert(p * 3 <= q * 3);
}

/// Advancing the rotation counter by one moves the fractional duty to a
/// different bank: for a power level that leaves some partial duty, the
/// bank carrying it under `rotation` is fully on or fully off under
/// `rotation + 1`, and another bank carries it there.
pub proof fn lemma_rotation_moves_partial_bank(
    first: RelaySchedule,
    next: RelaySchedule,
    power: int,
    rotation: int,
)
    requires
        0 <= power <= 100,
        0 <= rotation,
        partial_slots(power) != 0,
        first.is_schedule_for(power, rotation),
        next.is_schedule_for(power, rotation + 1),
    ensures
        ({
            let b = rotation % 3;
            let c = (rotation + 1) % 3;
            &&& b != c
            &&& on_count(first.bank(b)) == partial_slots(power)
            &&& 0 < on_count(first.bank(b)) < SLOTS
            &&& (on_count(next.bank(b)) == 0 || on_count(next.bank(b)) == SLOTS)
            &&& on_count(next.bank(c)) == partial_slots(power)
        }),
{
    let b = rotation % 3;
    let c = (rotation + 1) % 3;
    assert(first.bank(b) == bank_slots(power, rotation, b));
    assert(next.bank(b) == bank_slots(power, rotation + 1, b));
    assert(next.bank(c) == bank_slots(power, rotation + 1, c));
    lemma_bank_count(power, rotation, b);
    lemma_bank_count(power, rotation + 1, b);
    lemma_bank_count(power, rotation + 1, c);
}

} // verus!
