//! Counters driven by the one-second tick.
use crate::utils::mqtt::TIMEOUT;
use vstd::prelude::*;

verus! {

/// Tracks whether data arrived from a device within the last `TIMEOUT`
/// seconds. It starts out expired.
pub struct ReceiveTimer {
    tick_cnt: usize,
}

impl View for ReceiveTimer {
    type V = nat;

    /// Seconds since the last data, counted up to `TIMEOUT`.
    closed spec fn view(&self) -> nat {
        self.tick_cnt as nat
    }
}

/// Whether a timer with this count reports the device as online.
pub open spec fn timer_online(count: nat) -> bool {
    count < TIMEOUT
}

/// The count after a tick.
pub open spec fn timer_after_tick(count: nat) -> nat {
    if count < TIMEOUT { count + 1 } else { count }
}

/// The count after `n` ticks without data.
pub open spec fn timer_after_ticks(count: nat, n: nat) -> nat
    decreases n,
{
    if n == 0 {
        count
    } else {
        timer_after_tick(timer_after_ticks(count, (n - 1) as nat))
    }
}

impl ReceiveTimer {
    pub fn new() -> (r: Self)
        ensures
            r@ == TIMEOUT,
    {
        ReceiveTimer { tick_cnt: TIMEOUT }
    }

    /// Has to be called once a second: whether the device counts as online.
    pub fn tick(&mut self) -> (r: bool)
        ensures
            r == timer_online(old(self)@),
            final(self)@ == timer_after_tick(old(self)@),
    {
        if self.tick_cnt < 10 {
            self.tick_cnt += 1;
            true
        } else {
            false
        }
    }

    /// Data arrived from the device.
    pub fn received(&mut self)
        ensures
            final(self)@ == 0,
    {
        self.tick_cnt = 0;
    }
}

/// After data arrived, the device counts as online for exactly `TIMEOUT`
/// ticks; without new data it stays offline after that.
pub proof fn lemma_online_for_timeout(n: nat)
    ensures
        timer_after_ticks(0, n) == if n < TIMEOUT { n } else { TIMEOUT as nat },
        timer_online(timer_after_ticks(0, n)) <==> n < TIMEOUT,
    decreases n,
{
    if n > 0 {
        lemma_online_for_timeout((n - 1) as nat);
    }
}

/// An expired timer stays expired until data arrives.
pub proof fn lemma_expired_stays(count: nat, n: nat)
    requires
        !timer_online(count),
    ensures
        timer_after_ticks(count, n) == count,
        !timer_online(timer_after_ticks(count, n)),
    decreases n,
{
    if n > 0 {
        lemma_expired_stays(count, (n - 1) as nat);
    }
}

/// The period of `TickDivider`.
pub const MAX_TICK: u32 = 60;

/// Counts calls and signals every `MAX_TICK`-th one.
pub struct TickDivider {
    tick: u32,
}

impl View for TickDivider {
    type V = nat;

    closed spec fn view(&self) -> nat {
        self.tick as nat
    }
}

/// The count of `n` steps after a count of `count`.
pub open spec fn divider_after(count: nat, n: nat) -> nat {
    (count + n) % (MAX_TICK as nat)
}

impl TickDivider {
    #[verifier::type_invariant]
    closed spec fn inv(self) -> bool {
        self.tick < MAX_TICK
    }

    pub fn new() -> (r: Self)
        ensures
            r@ == 0,
    {
        TickDivider { tick: 0 }
    }

    /// Counts one call; true on every `MAX_TICK`-th call.
    pub fn step(&mut self) -> (r: bool)
        ensures
            old(self)@ < MAX_TICK,
            final(self)@ == divider_after(old(self)@, 1),
            r == (final(self)@ == 0),
    {
        proof {
            use_type_invariant(&*self);
        }
        self.tick = (self.tick + 1) % MAX_TICK;
        self.tick == 0
    }
}

/// Of `MAX_TICK` consecutive steps exactly one signals: counting from zero,
/// the `MAX_TICK`-th step signals and no earlier one.
pub proof fn lemma_divider_period(n: nat)
    requires
        0 < n <= MAX_TICK,
    ensures
        (divider_after(0, n) == 0) <==> n == MAX_TICK,
{
}

} // verus!
