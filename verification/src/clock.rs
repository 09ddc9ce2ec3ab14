//! The millisecond time base: a free-running counter that the timer interrupt
//! advances by one per acknowledged period and that wraps at `u32::MAX`.

use vstd::prelude::*;

verus! {

/// What the timer interrupt handler found when it acknowledged the timer.
#[derive(Clone, Copy, Debug, PartialEq, Eq, Structural)]
pub enum TimerEvent {
    /// The period elapsed and the acknowledgment went through.
    Acknowledged,
    /// The wait or acknowledgment failed: this period is not counted.
    Missed,
}

/// The counter value one millisecond after `ms`, wrapping to zero.
pub open spec fn next_ms(ms: u32) -> u32 {
    if ms == u32::MAX {
        0u32
    } else {
        (ms + 1) as u32
    }
}

/// The counter value `ticks` milliseconds after `start`.
pub open spec fn ms_after(start: u32, ticks: nat) -> u32
    decreases ticks,
{
    if ticks == 0 {
        start
    } else {
        next_ms(ms_after(start, (ticks - 1) as nat))
    }
}

/// A diagnostic count one above `count`, held at `u32::MAX` once reached.
pub open spec fn next_skipped(count: u32) -> u32 {
    if count == u32::MAX {
        count
    } else {
        (count + 1) as u32
    }
}

/// How many events of `events` are acknowledged periods.
pub open spec fn acknowledged_in(events: Seq<TimerEvent>) -> nat
    decreases events.len(),
{
    if events.len() == 0 {
        0
    } else {
        acknowledged_in(events.drop_last()) + if events.last() == TimerEvent::Acknowledged {
            1nat
        } else {
            0nat
        }
    }
}

/// How many events of `events` are missed periods.
pub open spec fn missed_in(events: Seq<TimerEvent>) -> nat
    decreases events.len(),
{
    if events.len() == 0 {
        0
    } else {
        missed_in(events.drop_last()) + if events.last() == TimerEvent::Missed {
            1nat
        } else {
            0nat
        }
    }
}

/// What a clock holds, as plain values.
pub struct ClockState {
    /// The counter, in milliseconds.
    pub elapsed_ms: u32,
    /// The number of missed periods recorded, held at `u32::MAX`.
    pub skipped: u32,
}

impl ClockState {
    /// The state of a clock that has seen no timer period.
    pub open spec fn zero() -> ClockState {
        ClockState { elapsed_ms: 0, skipped: 0 }
    }

    /// The state after the handler has processed `event`.
    pub open spec fn step(self, event: TimerEvent) -> ClockState {
        match event {
            TimerEvent::Acknowledged => ClockState {
                elapsed_ms: next_ms(self.elapsed_ms),
                skipped: self.skipped,
            },
            TimerEvent::Missed => ClockState {
                elapsed_ms: self.elapsed_ms,
                skipped: next_skipped(self.skipped),
            },
        }
    }

    /// The state after the handler has processed `events` in order.
    pub open spec fn after(self, events: Seq<TimerEvent>) -> ClockState
        decreases events.len(),
    {
        if events.len() == 0 {
            self
        } else {
            self.after(events.drop_last()).step(events.last())
        }
    }
}

/// The free-running millisecond counter together with the number of timer
/// periods that could not be acknowledged.
///
/// Only the interrupt context calls the `&mut self` methods; every other
/// context reads through `now`. The caller keeps the value behind whatever
/// gives it exclusive access (a critical section, a lock), so that every read
/// sees a value some write produced.
#[derive(Clone, Copy, Debug)]
pub struct MonotonicClock {
    elapsed_ms: u32,
    skipped: u32,
}

impl View for MonotonicClock {
    type V = ClockState;

    closed spec fn view(&self) -> ClockState {
        ClockState { elapsed_ms: self.elapsed_ms, skipped: self.skipped }
    }
}

impl MonotonicClock {
    /// A clock at zero with no missed period.
    pub fn new() -> (clock: MonotonicClock)
        ensures
            clock@ == ClockState::zero(),
    {
        MonotonicClock { elapsed_ms: 0, skipped: 0 }
    }

    /// A clock whose counter starts at `elapsed_ms`, with no missed period.
    pub fn starting_at(elapsed_ms: u32) -> (clock: MonotonicClock)
        ensures
            clock@ == (ClockState { elapsed_ms, skipped: 0 }),
    {
        MonotonicClock { elapsed_ms, skipped: 0 }
    }

    /// Advances the counter by one millisecond, wrapping at `u32::MAX`.
    pub fn tick(&mut self)
        ensures
            final(self)@ == old(self)@.step(TimerEvent::Acknowledged),
    {
        self.elapsed_ms = self.elapsed_ms.wrapping_add(1);
    }

    /// Records a timer period that could not be acknowledged. The counter
    /// stays as it is, so time drifts by one millisecond.
    pub fn skip(&mut self)
        ensures
            final(self)@ == old(self)@.step(TimerEvent::Missed),
    {
        self.skipped = self.skipped.saturating_add(1);
    }

    /// The interrupt handler's whole decision: count the period if the timer
    /// was acknowledged, record a miss if not.
    pub fn on_timer(&mut self, event: TimerEvent)
        ensures
            final(self)@ == old(self)@.step(event),
    {
        match event {
            TimerEvent::Acknowledged => self.tick(),
            TimerEvent::Missed => self.skip(),
        }
    }

    /// The current counter value, in milliseconds.
    pub fn now(&self) -> (ms: u32)
        ensures
            ms == self@.elapsed_ms,
    {
        self.elapsed_ms
    }

    /// How many timer periods were missed so far, held at `u32::MAX`.
    pub fn skipped(&self) -> (count: u32)
        ensures
            count == self@.skipped,
    {
        self.skipped
    }
}

/// Counting `ticks` milliseconds on from `start` is addition modulo 2^32.
pub proof fn lemma_ms_after_is_modular_sum(start: u32, ticks: nat)
    ensures
        ms_after(start, ticks) as int == (start as int + ticks as int) % 0x1_0000_0000,
    decreases ticks,
{
    if ticks > 0 {
        lemma_ms_after_is_modular_sum(start, (ticks - 1) as nat);
        let prev = ms_after(start, (ticks - 1) as nat);
        let sum = start as int + ticks as int;
        assert(prev as int == (sum - 1) % 0x1_0000_0000);
        assert(next_ms(prev) as int == sum % 0x1_0000_0000) by {
            lemma_mod_successor(sum - 1);
        }
    }
}

proof fn lemma_mod_successor(x: int)
    requires
        x >= 0,
    ensures
        (x + 1) % 0x1_0000_0000 == if x % 0x1_0000_0000 == 0xffff_ffff {
            0
        } else {
            x % 0x1_0000_0000 + 1
        },
{
}

/// Processing one run of events and then another is processing the two in
/// a row.
pub proof fn lemma_after_concat(
    state: ClockState,
    first: Seq<TimerEvent>,
    second: Seq<TimerEvent>,
)
    ensures
        state.after(first + second) == state.after(first).after(second),
    decreases second.len(),
{
    if second.len() == 0 {
        assert(first + second =~= first);
    } else {
        lemma_after_concat(state, first, second.drop_last());
        assert((first + second).drop_last() =~= first + second.drop_last());
        assert((first + second).last() == second.last());
    }
}

/// After any run of timer events the counter has advanced by exactly the
/// acknowledged periods, modulo 2^32, and the missed ones are all counted up
/// to the point where the diagnostic count saturates.
pub proof fn lemma_after_counts_events(state: ClockState, events: Seq<TimerEvent>)
    ensures
        state.after(events).elapsed_ms == ms_after(state.elapsed_ms, acknowledged_in(events)),
        state.after(events).elapsed_ms as int == (state.elapsed_ms as int + acknowledged_in(
            events,
        ) as int) % 0x1_0000_0000,
        state.after(events).skipped as int == if state.skipped as int + missed_in(events) as int
            <= u32::MAX as int {
            state.skipped as int + missed_in(events) as int
        } else {
            u32::MAX as int
        },
        acknowledged_in(events) + missed_in(events) == events.len(),
    decreases events.len(),
{
    if events.len() > 0 {
        lemma_after_counts_events(state, events.drop_last());
    }
    lemma_ms_after_is_modular_sum(state.elapsed_ms, acknowledged_in(events));
}

/// Counting acknowledged periods distributes over concatenation.
pub proof fn lemma_acknowledged_in_concat(first: Seq<TimerEvent>, second: Seq<TimerEvent>)
    ensures
        acknowledged_in(first + second) == acknowledged_in(first) + acknowledged_in(second),
    decreases second.len(),
{
    if second.len() == 0 {
        assert(first + second =~= first);
    } else {
        lemma_acknowledged_in_concat(first, second.drop_last());
        assert((first + second).drop_last() =~= first + second.drop_last());
        assert((first + second).last() == second.last());
    }
}

/// A read that is called after the events `before` and returns while the
/// events `during` arrive takes effect after some prefix of `during`, since
/// reads and ticks exclude one another. On a clock that started at zero the
/// value it returns is the number of ticks up to that point, modulo 2^32, and
/// that number lies between the tick count when the call began and the tick
/// count when it ended.
pub proof fn lemma_read_within_call_window(
    before: Seq<TimerEvent>,
    during: Seq<TimerEvent>,
    taken: int,
)
    requires
        0 <= taken <= during.len(),
    ensures
        ({
            let seen = acknowledged_in(before + during.subrange(0, taken));
            &&& acknowledged_in(before) <= seen <= acknowledged_in(before + during)
            &&& ClockState::zero().after(before + during.subrange(0, taken)).elapsed_ms as int
                == seen % 0x1_0000_0000
        }),
{
    let prefix = during.subrange(0, taken);
    let rest = during.subrange(taken, during.len() as int);
    assert(during =~= prefix + rest);
    lemma_acknowledged_in_concat(before, prefix);
    lemma_acknowledged_in_concat(prefix, rest);
    lemma_acknowledged_in_concat(before, during);
    lemma_after_counts_events(ClockState::zero(), before + prefix);
}

/// A run of acknowledged periods holds as many of them as it is long.
pub proof fn lemma_all_acknowledged(ticks: Seq<TimerEvent>)
    requires
        forall|i: int| 0 <= i < ticks.len() ==> ticks[i] == TimerEvent::Acknowledged,
    ensures
        acknowledged_in(ticks) == ticks.len(),
        missed_in(ticks) == 0,
    decreases ticks.len(),
{
    if ticks.len() > 0 {
        lemma_all_acknowledged(ticks.drop_last());
    }
}

/// No tick is lost and none is invented: on a clock that started at zero, a
/// read after the first `read_at` of any run of ticks returns `read_at`
/// modulo 2^32.
pub proof fn lemma_now_counts_ticks(ticks: Seq<TimerEvent>, read_at: int)
    requires
        forall|i: int| 0 <= i < ticks.len() ==> ticks[i] == TimerEvent::Acknowledged,
        0 <= read_at <= ticks.len(),
    ensures
        ClockState::zero().after(ticks.take(read_at)).elapsed_ms as int == read_at % 0x1_0000_0000,
        ClockState::zero().after(ticks.take(read_at)).skipped == 0,
{
    lemma_all_acknowledged(ticks.take(read_at));
    lemma_after_counts_events(ClockState::zero(), ticks.take(read_at));
}

} // verus!
