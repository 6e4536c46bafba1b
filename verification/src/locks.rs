//! Lock slots: the time-stamped sub-positions of one staker in one asset.

use vstd::prelude::*;
use crate::error::ErrorCode;
use crate::interest::{accrued_interest, interest_of, lemma_interest_truncates, SECONDS_PER_YEAR};

verus! {

/// Largest number of lock slots that one schedule may hold.
pub const LOCK_CAPACITY: usize = 10;

/// One locked sub-position: an amount and the time at which it was staked.
#[derive(Clone, Copy, Debug, PartialEq, Eq, Hash, Structural)]
pub struct LockSlot {
    pub amount: u64,
    pub start_time: i64,
}

impl LockSlot {
    /// A slot is vacant when both its amount and its start time are zero.
    pub open spec fn spec_is_vacant(&self) -> bool {
        self.amount == 0 && self.start_time == 0
    }

    /// Tells whether the slot is vacant.
    #[verifier::when_used_as_spec(spec_is_vacant)]
    pub fn is_vacant(&self) -> (vacant: bool)
        ensures
            vacant == self.is_vacant(),
    {
        self.amount == 0 && self.start_time == 0
    }

    /// The vacant slot.
    pub open spec fn spec_vacant() -> LockSlot {
        LockSlot { amount: 0, start_time: 0 }
    }

    /// The vacant slot.
    #[verifier::when_used_as_spec(spec_vacant)]
    pub fn vacant() -> (slot: LockSlot)
        ensures
            slot == LockSlot::vacant(),
    {
        LockSlot { amount: 0, start_time: 0 }
    }

    /// What the slot is worth to a withdrawal request made at `now`: its
    /// amount and the interest accrued on it since its start.
    pub open spec fn value(self, rate: int, now: int) -> int {
        self.amount + interest_of(rate, self.amount as int, now - self.start_time)
    }
}

/// First index at or after `from` whose slot is vacant; the length of `slots`
/// when there is none.
pub open spec fn vacant_from(slots: Seq<LockSlot>, from: int) -> int
    decreases slots.len() - from,
{
    if from >= slots.len() {
        slots.len() as int
    } else if slots[from].is_vacant() {
        from
    } else {
        vacant_from(slots, from + 1)
    }
}

/// Index of the first vacant slot; the length of `slots` when every slot is
/// taken.
pub open spec fn first_vacant(slots: Seq<LockSlot>) -> int {
    vacant_from(slots, 0)
}

/// Whether one more sub-position can be locked: a slot is vacant, or the
/// schedule may still grow.
pub open spec fn can_lock(slots: Seq<LockSlot>) -> bool {
    first_vacant(slots) < slots.len() || slots.len() < LOCK_CAPACITY
}

/// The schedule after `slot` has been locked: it takes the first vacant slot,
/// and is appended when there is none.
pub open spec fn locked(slots: Seq<LockSlot>, slot: LockSlot) -> Seq<LockSlot> {
    let at = first_vacant(slots);
    if at < slots.len() {
        slots.update(at, slot)
    } else {
        slots.push(slot)
    }
}

/// Sum of the values of the first `upto` slots.
pub open spec fn value_before(slots: Seq<LockSlot>, rate: int, now: int, upto: int) -> int
    decreases upto,
{
    if upto <= 0 {
        0
    } else {
        value_before(slots, rate, now, upto - 1) + slots[upto - 1].value(rate, now)
    }
}

/// Slot `at` after a withdrawal request has drawn `need` from the schedule.
/// Slots are drawn from in order. Those whose value is used up entirely
/// become vacant; the slot at which the running value first exceeds `need`
/// keeps the excess and its start time; the slots after it are left as they
/// are.
pub open spec fn released_slot(
    slots: Seq<LockSlot>,
    rate: int,
    now: int,
    need: int,
    at: int,
) -> LockSlot {
    if value_before(slots, rate, now, at + 1) <= need {
        LockSlot::vacant()
    } else if value_before(slots, rate, now, at) <= need {
        LockSlot {
            amount: (value_before(slots, rate, now, at + 1) - need) as u64,
            start_time: slots[at].start_time,
        }
    } else {
        slots[at]
    }
}

/// The schedule after a withdrawal request has drawn `need` from it.
pub open spec fn released(slots: Seq<LockSlot>, rate: int, now: int, need: int) -> Seq<LockSlot> {
    Seq::new(slots.len(), |at: int| released_slot(slots, rate, now, need, at))
}

/// What a withdrawal request that needs `need` draws from the schedule: all
/// that it needs, or the value of every slot if that is less.
pub open spec fn drawn(slots: Seq<LockSlot>, rate: int, now: int, need: int) -> int {
    let all = value_before(slots, rate, now, slots.len() as int);
    if all <= need {
        all
    } else {
        need
    }
}

/// Sum of the amounts of the first `upto` slots.
pub open spec fn amount_before(slots: Seq<LockSlot>, upto: int) -> int
    decreases upto,
{
    if upto <= 0 {
        0
    } else {
        amount_before(slots, upto - 1) + slots[upto - 1].amount
    }
}

/// Sum of the amounts of all slots.
pub open spec fn locked_total(slots: Seq<LockSlot>) -> int {
    amount_before(slots, slots.len() as int)
}

/// The first vacant slot at or after `from` lies at or before any vacant
/// slot there, and no slot between `from` and it is vacant.
pub proof fn lemma_vacant_from(slots: Seq<LockSlot>, from: int, at: int)
    requires
        0 <= from <= at < slots.len(),
    ensures
        from <= vacant_from(slots, from) <= slots.len(),
        slots[at].is_vacant() ==> vacant_from(slots, from) <= at,
        at < vacant_from(slots, from) ==> !slots[at].is_vacant(),
        vacant_from(slots, from) < slots.len() ==> slots[vacant_from(slots, from)].is_vacant(),
    decreases slots.len() - from,
{
    if !slots[from].is_vacant() && from < at {
        lemma_vacant_from(slots, from + 1, at);
    } else if !slots[from].is_vacant() && from + 1 < slots.len() {
        lemma_vacant_from(slots, from + 1, from + 1);
    }
}

/// While the rate is below the number of seconds in a year, a slot is worth
/// its amount, and the value of a run of slots is the sum of their amounts.
pub proof fn lemma_value_is_amount(slots: Seq<LockSlot>, rate: int, now: int, upto: int)
    requires
        0 <= rate < SECONDS_PER_YEAR,
        0 <= upto <= slots.len(),
    ensures
        value_before(slots, rate, now, upto) == amount_before(slots, upto),
        0 <= amount_before(slots, upto),
    decreases upto,
{
    if upto > 0 {
        lemma_value_is_amount(slots, rate, now, upto - 1);
        let slot = slots[upto - 1];
        lemma_interest_truncates(rate, slot.amount as int, now - slot.start_time);
    }
}

/// Amounts of the first `upto` slots after `slot` has been written at `at`.
pub proof fn lemma_amount_before_update(
    slots: Seq<LockSlot>,
    at: int,
    slot: LockSlot,
    upto: int,
)
    requires
        0 <= at < slots.len(),
        0 <= upto <= slots.len(),
    ensures
        amount_before(slots.update(at, slot), upto) == amount_before(slots, upto) + (if at < upto {
            slot.amount - slots[at].amount
        } else {
            0
        }),
    decreases upto,
{
    if upto > 0 {
        lemma_amount_before_update(slots, at, slot, upto - 1);
    }
}

/// Amounts of the first `upto` slots are those of the same slots in a
/// longer schedule.
pub proof fn lemma_amount_before_push(slots: Seq<LockSlot>, slot: LockSlot, upto: int)
    requires
        0 <= upto <= slots.len(),
    ensures
        amount_before(slots.push(slot), upto) == amount_before(slots, upto),
    decreases upto,
{
    if upto > 0 {
        lemma_amount_before_push(slots, slot, upto - 1);
    }
}

/// Locking a sub-position adds its amount to the total locked, and the
/// schedule grows by one slot only when none was vacant.
pub proof fn lemma_locked_total(slots: Seq<LockSlot>, slot: LockSlot)
    ensures
        locked_total(locked(slots, slot)) == locked_total(slots) + slot.amount,
        first_vacant(slots) < slots.len() ==> locked(slots, slot).len() == slots.len(),
        first_vacant(slots) == slots.len() ==> locked(slots, slot).len() == slots.len() + 1,
        0 <= first_vacant(slots) <= slots.len(),
{
    let at = first_vacant(slots);
    if slots.len() > 0 {
        lemma_vacant_from(slots, 0, 0);
    }
    if at < slots.len() {
        lemma_amount_before_update(slots, at, slot, slots.len() as int);
    } else {
        lemma_amount_before_push(slots, slot, slots.len() as int);
    }
}

/// After a withdrawal request has drawn `need` from the schedule, the first
/// `upto` slots hold what their value exceeded `need` by.
pub proof fn lemma_amount_before_released(
    slots: Seq<LockSlot>,
    rate: int,
    now: int,
    need: int,
    upto: int,
)
    requires
        0 <= rate < SECONDS_PER_YEAR,
        0 <= need <= u64::MAX,
        0 <= upto <= slots.len(),
    ensures
        amount_before(released(slots, rate, now, need), upto) == (if value_before(
            slots,
            rate,
            now,
            upto,
        ) <= need {
            0
        } else {
            value_before(slots, rate, now, upto) - need
        }),
    decreases upto,
{
    if upto > 0 {
        lemma_amount_before_released(slots, rate, now, need, upto - 1);
        lemma_value_is_amount(slots, rate, now, upto - 1);
        lemma_value_is_amount(slots, rate, now, upto);
    }
}

/// A withdrawal request takes from the total locked exactly what it draws,
/// and leaves the number of slots as it is.
pub proof fn lemma_released_total(slots: Seq<LockSlot>, rate: int, now: int, need: int)
    requires
        0 <= rate < SECONDS_PER_YEAR,
        0 <= need <= u64::MAX,
    ensures
        locked_total(released(slots, rate, now, need)) == locked_total(slots) - drawn(
            slots,
            rate,
            now,
            need,
        ),
        drawn(slots, rate, now, need) == (if locked_total(slots) <= need {
            locked_total(slots)
        } else {
            need
        }),
        released(slots, rate, now, need).len() == slots.len(),
{
    lemma_amount_before_released(slots, rate, now, need, slots.len() as int);
    lemma_value_is_amount(slots, rate, now, slots.len() as int);
}

/// A slot that a withdrawal request has left vacant is taken again by the
/// next stake. The stake is not refused for want of room and the schedule
/// does not grow: the sub-position goes into the first vacant slot, which
/// lies at or before the slot `at`.
pub proof fn lemma_lock_reuses_released_slot(
    slots: Seq<LockSlot>,
    rate: int,
    now: int,
    need: int,
    at: int,
    slot: LockSlot,
)
    requires
        0 <= at < slots.len(),
        released(slots, rate, now, need)[at].is_vacant(),
    ensures
        can_lock(released(slots, rate, now, need)),
        0 <= first_vacant(released(slots, rate, now, need)) <= at,
        released(slots, rate, now, need)[first_vacant(
            released(slots, rate, now, need),
        )].is_vacant(),
        locked(released(slots, rate, now, need), slot) == released(slots, rate, now, need).update(
            first_vacant(released(slots, rate, now, need)),
            slot,
        ),
        locked(released(slots, rate, now, need), slot).len() == slots.len(),
{
    lemma_vacant_from(released(slots, rate, now, need), 0, at);
}

/// The lock slots of one staker in one asset, in the order of their indices.
#[derive(Debug, PartialEq, Eq)]
pub struct LockedPool {
    pub slots: Vec<LockSlot>,
}

impl View for LockedPool {
    type V = Seq<LockSlot>;

    open spec fn view(&self) -> Seq<LockSlot> {
        self.slots@
    }
}

impl LockedPool {
    /// A schedule without slots.
    pub fn new() -> (pool: LockedPool)
        ensures
            pool@ == Seq::<LockSlot>::empty(),
    {
        LockedPool { slots: Vec::new() }
    }

    /// Index of the first vacant slot, or the number of slots when every
    /// slot is taken.
    pub fn find_vacant(&self) -> (at: usize)
        ensures
            at == first_vacant(self@),
            at <= self@.len(),
    {
        let n = self.slots.len();
        let mut i: usize = 0;
        while i < n
            invariant
                i <= n,
                n == self.slots.len(),
                first_vacant(self@) == vacant_from(self@, i as int),
            decreases n - i,
        {
            if self.slots[i].is_vacant() {
                return i;
            }
            i += 1;
        }
        n
    }

    /// Locks `amount` from `now` on. The first vacant slot is reused; when
    /// there is none the slot is appended, unless the schedule has reached
    /// its capacity. Returns the index of the slot taken.
    pub fn lock(&mut self, amount: u64, now: i64) -> (taken: Result<usize, ErrorCode>)
        ensures
            can_lock(old(self)@) ==> ({
                &&& taken == Ok::<usize, ErrorCode>(first_vacant(old(self)@) as usize)
                &&& final(self)@ == locked(old(self)@, LockSlot { amount, start_time: now })
            }),
            !can_lock(old(self)@) ==> ({
                &&& taken == Err::<usize, ErrorCode>(ErrorCode::CapacityExceeded)
                &&& *final(self) == *old(self)
            }),
    {
        let slot = LockSlot { amount, start_time: now };
        let n = self.slots.len();
        let at = self.find_vacant();
        if at < n {
            self.slots.set(at, slot);
            Ok(at)
        } else if n < LOCK_CAPACITY {
            self.slots.push(slot);
            Ok(n)
        } else {
            Err(ErrorCode::CapacityExceeded)
        }
    }

    /// Draws `need` from the slots for a withdrawal request made at `now`,
    /// with interest at `rate` percent a year. Returns the schedule that
    /// results and the amount drawn; `self` is left as it is.
    pub fn release(&self, need: u64, rate: u8, now: i64) -> (out: (LockedPool, u64))
        ensures
            out.0@ == released(self@, rate as int, now as int, need as int),
            out.1 == drawn(self@, rate as int, now as int, need as int),
    {
        let n = self.slots.len();
        let mut next: Vec<LockSlot> = Vec::new();
        let mut taken: u64 = 0;
        let mut stopped = false;
        let mut i: usize = 0;
        while i < n
            invariant
                i <= n,
                n == self.slots.len(),
                next.len() == i,
                taken <= need,
                !stopped ==> taken == value_before(self@, rate as int, now as int, i as int),
                stopped ==> taken == need && value_before(self@, rate as int, now as int, i as int)
                    > need,
                forall|j: int|
                    0 <= j < i ==> next[j] == released_slot(
                        self@,
                        rate as int,
                        now as int,
                        need as int,
                        j,
                    ),
            decreases n - i,
        {
            let slot = self.slots[i];
            proof {
                lemma_interest_truncates(
                    rate as int,
                    slot.amount as int,
                    now as int - slot.start_time as int,
                );
            }
            if stopped {
                next.push(slot);
            } else {
                let elapsed: i128 = now as i128 - slot.start_time as i128;
                let value: u64 = slot.amount + accrued_interest(rate, slot.amount, elapsed);
                let room: u64 = need - taken;
                if value > room {
                    next.push(LockSlot { amount: value - room, start_time: slot.start_time });
                    taken = need;
                    stopped = true;
                } else {
                    next.push(LockSlot::vacant());
                    taken = taken + value;
                }
            }
            i += 1;
        }
        (LockedPool { slots: next }, taken)
    }
}

impl Clone for LockedPool {
    fn clone(&self) -> (copy: LockedPool)
        ensures
            copy@ == self@,
    {
        let n = self.slots.len();
        let mut slots: Vec<LockSlot> = Vec::new();
        let mut i: usize = 0;
        while i < n
            invariant
                i <= n,
                n == self.slots.len(),
                slots@ == self@.take(i as int),
            decreases n - i,
        {
            slots.push(self.slots[i]);
            i += 1;
        }
        LockedPool { slots }
    }
}

impl Default for LockedPool {
    fn default() -> (pool: LockedPool)
        ensures
            pool@ == Seq::<LockSlot>::empty(),
    {
        LockedPool::new()
    }
}

} // verus!
