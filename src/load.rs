//! A sliding window of per-second request counters.
use vstd::prelude::*;

verus! {

/// Number of one-second slots in the window.
pub const SLOTS: usize = 10;

/// `n`, or the largest `u64` where `n` does not fit.
pub open spec fn capped(n: nat) -> u64 {
    if n > u64::MAX {
        u64::MAX
    } else {
        n as u64
    }
}

/// The sum of the counters.
pub open spec fn seq_sum(s: Seq<u64>) -> nat
    decreases s.len(),
{
    if s.len() == 0 {
        0
    } else {
        seq_sum(s.drop_last()) + s.last() as nat
    }
}

/// What `total` reports for counters `s`.
pub open spec fn window_total(s: Seq<u64>) -> u64 {
    capped(seq_sum(s))
}

/// The slot that counts requests in second `now`.
pub open spec fn slot_of(now: u64) -> int {
    (now % (SLOTS as u64)) as int
}

/// The slot one position ahead of `now`'s.
pub open spec fn next_slot(now: u64) -> int {
    (slot_of(now) + 1) % (SLOTS as int)
}

/// A counter increased by one, staying at the largest value once there.
pub open spec fn bumped(x: u64) -> u64 {
    if x == u64::MAX {
        x
    } else {
        (x + 1) as u64
    }
}

/// The counters after one request recorded in second `now`: `now`'s slot goes up
/// by one and the slot ahead of it is cleared.
pub open spec fn recorded(s: Seq<u64>, now: u64) -> Seq<u64> {
    s.update(slot_of(now), bumped(s[slot_of(now)])).update(next_slot(now), 0)
}

/// The counters after `k` requests recorded in second `now`.
pub open spec fn recorded_times(s: Seq<u64>, now: u64, k: nat) -> Seq<u64>
    decreases k,
{
    if k == 0 {
        s
    } else {
        recorded(recorded_times(s, now, (k - 1) as nat), now)
    }
}

/// Request counters for the last `SLOTS` seconds, one per second of the clock
/// taken modulo `SLOTS`.
pub struct LoadWindow {
    slots: Vec<u64>,
}

impl View for LoadWindow {
    type V = Seq<u64>;

    closed spec fn view(&self) -> Seq<u64> {
        self.slots@
    }
}

impl LoadWindow {
    /// The window holds exactly one counter per slot.
    pub open spec fn wf(&self) -> bool {
        self@.len() == SLOTS
    }

    /// A window with every counter at zero.
    pub fn new() -> (r: LoadWindow)
        ensures
            r.wf(),
            r@ == Seq::new(SLOTS as nat, |i: int| 0u64),
    {
        let mut slots: Vec<u64> = Vec::new();
        let mut i: usize = 0;
        while i < SLOTS
            invariant
                i <= SLOTS,
                slots@ == Seq::new(i as nat, |j: int| 0u64),
            decreases SLOTS - i,
        {
            slots.push(0);
            i = i + 1;
        }
        LoadWindow { slots }
    }

    /// The counter of slot `i`.
    pub fn slot(&self, i: usize) -> (r: u64)
        requires
            self.wf(),
            i < SLOTS,
        ensures
            r == self@[i as int],
    {
        self.slots[i]
    }

    /// The number of requests counted in the window, capped at the largest `u64`.
    pub fn total(&self) -> (r: u64)
        requires
            self.wf(),
        ensures
            r == window_total(self@),
    {
        let mut acc: u64 = 0;
        let mut i: usize = 0;
        while i < self.slots.len()
            invariant
                self.wf(),
                i <= SLOTS,
                acc == capped(seq_sum(self@.take(i as int))),
            decreases SLOTS - i,
        {
            proof {
                assert(self@.take(i + 1).drop_last() =~= self@.take(i as int));
            }
            acc = acc.saturating_add(self.slots[i]);
            i = i + 1;
        }
        assert(self@.take(SLOTS as int) =~= self@);
        acc
    }

    /// Records one request in second `now`, clears the slot one position ahead,
    /// and returns the new total.
    pub fn record_and_total(&mut self, now: u64) -> (r: u64)
        requires
            old(self).wf(),
        ensures
            final(self).wf(),
            final(self)@ == recorded(old(self)@, now),
            r == window_total(final(self)@),
    {
        let cur = (now % (SLOTS as u64)) as usize;
        let next = (cur + 1) % SLOTS;
        let count = self.slots[cur];
        self.slots.set(cur, count.saturating_add(1));
        self.slots.set(next, 0);
        self.total()
    }
}

proof fn lemma_sum_at_least_each(s: Seq<u64>, i: int)
    requires
        0 <= i < s.len(),
    ensures
        seq_sum(s) >= s[i],
    decreases s.len(),
{
    if i < s.len() - 1 {
        lemma_sum_at_least_each(s.drop_last(), i);
    }
}

proof fn lemma_recorded_times_slot(s: Seq<u64>, now: u64, k: nat)
    requires
        s.len() == SLOTS,
    ensures
        recorded_times(s, now, k).len() == SLOTS,
        recorded_times(s, now, k)[slot_of(now)] >= capped(k),
    decreases k,
{
    if k > 0 {
        lemma_recorded_times_slot(s, now, (k - 1) as nat);
    }
}

/// Requests recorded in one second are all counted: after `k` of them in second
/// `now`, the total is at least `k` (or the largest `u64`).
pub proof fn lemma_recent_requests_counted(s: Seq<u64>, now: u64, k: nat)
    requires
        s.len() == SLOTS,
    ensures
        window_total(recorded_times(s, now, k)) >= capped(k),
{
    lemma_recorded_times_slot(s, now, k);
    lemma_sum_at_least_each(recorded_times(s, now, k), slot_of(now));
}

/// A record in second `now` drops what the slot ahead of `now`'s held, the
/// counts from `SLOTS - 1` seconds before: that slot is zero afterwards and the
/// other slots but `now`'s are unchanged.
pub proof fn lemma_record_evicts_oldest(s: Seq<u64>, now: u64)
    requires
        s.len() == SLOTS,
    ensures
        recorded(s, now).len() == SLOTS,
        recorded(s, now)[next_slot(now)] == 0,
        next_slot(now) != slot_of(now),
        forall|i: int|
            0 <= i < SLOTS && i != slot_of(now) && i != next_slot(now) ==> recorded(s, now)[i]
                == s[i],
{
}

} // verus!
