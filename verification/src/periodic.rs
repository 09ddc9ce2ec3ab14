//! A polled trigger that answers whether a fixed interval of clock time has
//! passed since it last fired. It never schedules anything itself.

use crate::clock::ms_after;
use vstd::prelude::*;

verus! {

/// The milliseconds from `earlier` to `now` on a counter that wraps at
/// `u32::MAX`: their difference modulo 2^32.
pub open spec fn elapsed_between(earlier: u32, now: u32) -> u32 {
    ((now as int - earlier as int) % 0x1_0000_0000) as u32
}

/// What a trigger holds, as plain values.
pub struct TriggerState {
    /// The interval between two firings, in milliseconds.
    pub interval_ms: u32,
    /// The clock value at which the trigger last fired.
    pub last_fired_ms: u32,
}

impl TriggerState {
    /// Whether a poll at clock value `now` fires.
    pub open spec fn due(self, now: u32) -> bool {
        elapsed_between(self.last_fired_ms, now) >= self.interval_ms
    }

    /// The state after a poll at clock value `now`: a poll that fires
    /// restarts the interval at `now`, another changes nothing.
    pub open spec fn polled(self, now: u32) -> TriggerState {
        if self.due(now) {
            TriggerState { interval_ms: self.interval_ms, last_fired_ms: now }
        } else {
            self
        }
    }

    /// How often the trigger fires when it is polled at each of the times
    /// `polls` in turn, the times counted in milliseconds since the clock
    /// was at zero, without wrapping.
    pub open spec fn firings(self, polls: Seq<nat>) -> nat
        decreases polls.len(),
    {
        if polls.len() == 0 {
            0
        } else {
            let now = ms_after(0, polls.first());
            let fired: nat = if self.due(now) {
                1
            } else {
                0
            };
            fired + self.polled(now).firings(polls.drop_first())
        }
    }
}

/// Whether the times of `polls` never go back.
pub open spec fn non_decreasing(polls: Seq<nat>) -> bool {
    forall|i: int, j: int| 0 <= i <= j < polls.len() ==> polls[i] <= polls[j]
}

/// Fires at most once per interval of clock time. A missed interval is not
/// queued: firing restarts the interval at the time of the poll.
#[derive(Clone, Copy, Debug)]
pub struct PeriodicTrigger {
    interval_ms: u32,
    last_fired_ms: u32,
}

impl View for PeriodicTrigger {
    type V = TriggerState;

    closed spec fn view(&self) -> TriggerState {
        TriggerState { interval_ms: self.interval_ms, last_fired_ms: self.last_fired_ms }
    }
}

impl PeriodicTrigger {
    /// A trigger with the given interval whose first interval starts at clock
    /// value zero. With an interval of zero it fires on every poll.
    pub fn new(interval_ms: u32) -> (trigger: PeriodicTrigger)
        ensures
            trigger@ == (TriggerState { interval_ms, last_fired_ms: 0 }),
    {
        PeriodicTrigger { interval_ms, last_fired_ms: 0 }
    }

    /// Polls the trigger at clock value `now`. It fires when at least the
    /// interval has passed since it last fired, and then restarts the interval
    /// at `now`; otherwise it stays as it is.
    pub fn ready(&mut self, now: u32) -> (fired: bool)
        ensures
            fired == old(self)@.due(now),
            old(self)@.interval_ms == 0 ==> fired,
            final(self)@ == old(self)@.polled(now),
    {
        let elapsed: u32 = now.wrapping_sub(self.last_fired_ms);
        if elapsed >= self.interval_ms {
            self.last_fired_ms = now;
            true
        } else {
            false
        }
    }

    /// The interval between two firings, in milliseconds.
    pub fn interval_ms(&self) -> (ms: u32)
        ensures
            ms == self@.interval_ms,
    {
        self.interval_ms
    }

    /// The clock value at which the trigger last fired.
    pub fn last_fired_ms(&self) -> (ms: u32)
        ensures
            ms == self@.last_fired_ms,
    {
        self.last_fired_ms
    }
}

/// The time elapsed since `earlier`, read `later` ticks on, is `later` itself
/// as long as the counter has not gone once round, also where it has wrapped
/// to zero in between.
pub proof fn lemma_elapsed_after_ticks(earlier: u32, later: nat)
    requires
        later <= u32::MAX,
    ensures
        elapsed_between(earlier, ms_after(earlier, later)) == later,
{
    crate::clock::lemma_ms_after_is_modular_sum(earlier, later);
}

/// A trigger with interval zero is due at every clock value.
pub proof fn lemma_zero_interval_always_due(trigger: TriggerState, now: u32)
    requires
        trigger.interval_ms == 0,
    ensures
        trigger.due(now),
{
}

/// After firing, the trigger stays quiet until the interval has passed: a
/// poll fewer than `interval` ticks after the firing does not fire, wherever
/// on the counter the firing fell.
pub proof fn lemma_quiet_within_interval(trigger: TriggerState, later: nat)
    requires
        later < trigger.interval_ms,
    ensures
        !trigger.due(ms_after(trigger.last_fired_ms, later)),
{
    lemma_elapsed_after_ticks(trigger.last_fired_ms, later);
}

/// Once the interval has passed the trigger is due again: a poll `later`
/// ticks after the firing fires for every `later` from the interval up to one
/// round of the counter.
pub proof fn lemma_due_after_interval(trigger: TriggerState, later: nat)
    requires
        trigger.interval_ms <= later <= u32::MAX,
    ensures
        trigger.due(ms_after(trigger.last_fired_ms, later)),
{
    lemma_elapsed_after_ticks(trigger.last_fired_ms, later);
}

/// Two firings are never less than an interval apart. With the time since
/// power-up counted without wrapping, a trigger that fired at `fired_at` and
/// is due at a poll at `polled_at` has seen at least its interval pass.
pub proof fn lemma_firings_an_interval_apart(
    trigger: TriggerState,
    fired_at: nat,
    polled_at: nat,
)
    requires
        fired_at <= polled_at,
        trigger.last_fired_ms == ms_after(0, fired_at),
        trigger.due(ms_after(0, polled_at)),
    ensures
        polled_at - fired_at >= trigger.interval_ms,
{
    crate::clock::lemma_ms_after_is_modular_sum(0, fired_at);
    crate::clock::lemma_ms_after_is_modular_sum(0, polled_at);
    let a = fired_at as int;
    let b = polled_at as int;
    assert((b % 0x1_0000_0000 - a % 0x1_0000_0000) % 0x1_0000_0000 <= b - a) by {
        lemma_wrapped_difference_bounded(a, b);
    }
}

/// In any run of polls the trigger fires at most once per interval of the
/// time that the run covers. With the last firing at `fired_at` and the polls
/// at times that never go back, the firings times the interval fit into the
/// time from `fired_at` to the last poll, however often the counter wraps in
/// between.
pub proof fn lemma_at_most_one_firing_per_interval(
    trigger: TriggerState,
    fired_at: nat,
    polls: Seq<nat>,
)
    requires
        polls.len() > 0,
        non_decreasing(polls),
        fired_at <= polls.first(),
        trigger.last_fired_ms == ms_after(0, fired_at),
    ensures
        trigger.firings(polls) * trigger.interval_ms <= polls.last() - fired_at,
    decreases polls.len(),
{
    let now = ms_after(0, polls.first());
    let rest = polls.drop_first();
    let interval = trigger.interval_ms as int;
    let fired: int = if trigger.due(now) {
        1
    } else {
        0
    };
    let from: nat = if trigger.due(now) {
        polls.first()
    } else {
        fired_at
    };
    if trigger.due(now) {
        lemma_firings_an_interval_apart(trigger, fired_at, polls.first());
    }
    assert(trigger.firings(polls) == fired + trigger.polled(now).firings(rest));
    if rest.len() == 0 {
        assert(polls.last() == polls.first());
        assert(trigger.polled(now).firings(rest) == 0);
        assert(fired * interval <= from - fired_at) by (nonlinear_arith)
            requires
                fired == 0 || (fired == 1 && from - fired_at >= interval),
                from >= fired_at,
        ;
    } else {
        assert forall|i: int, j: int| 0 <= i <= j < rest.len() implies rest[i] <= rest[j] by {
            assert(rest[i] == polls[i + 1] && rest[j] == polls[j + 1]);
        }
        assert(rest.first() == polls[1]);
        assert(rest.last() == polls.last());
        lemma_at_most_one_firing_per_interval(trigger.polled(now), from, rest);
        let later = trigger.polled(now).firings(rest) as int;
        assert((fired + later) * interval <= polls.last() - fired_at) by (nonlinear_arith)
            requires
                later * interval <= polls.last() - from,
                fired == 0 || (fired == 1 && from - fired_at >= interval),
                from >= fired_at,
        ;
    }
}

proof fn lemma_wrapped_difference_bounded(a: int, b: int)
    requires
        0 <= a <= b,
    ensures
        (b % 0x1_0000_0000 - a % 0x1_0000_0000) % 0x1_0000_0000 <= b - a,
{
    let m = 0x1_0000_0000int;
    let qa = a / m;
    let qb = b / m;
    assert(a == qa * m + a % m) by {
        vstd::arithmetic::div_mod::lemma_fundamental_div_mod(a, m);
    }
    assert(b == qb * m + b % m) by {
        vstd::arithmetic::div_mod::lemma_fundamental_div_mod(b, m);
    }
    let d = b % m - a % m;
    if d >= 0 {
        assert(d % m == d);
        assert(qa <= qb) by {
            vstd::arithmetic::div_mod::lemma_div_is_ordered(a, b, m);
        }
        assert(qa * m <= qb * m) by (nonlinear_arith)
            requires
                qa <= qb,
                m > 0,
        ;
    } else {
        assert(d % m == d + m);
        assert(qa <= qb) by {
            vstd::arithmetic::div_mod::lemma_div_is_ordered(a, b, m);
        }
        if qa == qb {
            assert(false);
        }
        assert((qa + 1) * m <= qb * m) by (nonlinear_arith)
            requires
                qa + 1 <= qb,
                m > 0,
        ;
        assert((qa + 1) * m == qa * m + m) by (nonlinear_arith);
    }
}

} // verus!
