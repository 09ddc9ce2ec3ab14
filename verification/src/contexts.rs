//! The two run contexts and the fixed assignment of hardware resources to
//! them. The assignment is made once, at start-up, by handing each context
//! the handles it owns; nothing but the clock counter is ever shared.

use vstd::prelude::*;

verus! {

/// One of the two contexts in which code runs.
#[derive(Clone, Copy, Debug, PartialEq, Eq, Structural)]
pub enum Context {
    /// The timer interrupt handler: higher priority, preempts the main loop.
    Interrupt,
    /// The cooperative main loop, which only the interrupt preempts.
    Idle,
}

/// A hardware resource that exactly one context owns.
#[derive(Clone, Copy, Debug, PartialEq, Eq, Structural)]
pub enum Resource {
    /// The hardware timer that drives the clock.
    Timer,
    /// The on-board status LED.
    StatusLed,
    /// The driver of the LED strip.
    LedStrip,
    /// The radio transport.
    Radio,
}

/// The context that owns `resource` for the device's whole run.
pub open spec fn owner(resource: Resource) -> Context {
    match resource {
        Resource::Timer => Context::Interrupt,
        Resource::StatusLed => Context::Idle,
        Resource::LedStrip => Context::Idle,
        Resource::Radio => Context::Idle,
    }
}

/// Whether `first` can interrupt `second` while it runs.
pub open spec fn can_preempt(first: Context, second: Context) -> bool {
    first == Context::Interrupt && second == Context::Idle
}

/// The context that owns `resource`.
pub fn owner_of(resource: Resource) -> (context: Context)
    ensures
        context == owner(resource),
{
    match resource {
        Resource::Timer => Context::Interrupt,
        Resource::StatusLed | Resource::LedStrip | Resource::Radio => Context::Idle,
    }
}

/// Whether code running in `context` may use `resource`: only its owner may.
pub fn may_touch(context: Context, resource: Resource) -> (allowed: bool)
    ensures
        allowed == (owner(resource) == context),
{
    owner_of(resource) == context
}

/// Whether `first` preempts `second`: the interrupt preempts the main loop,
/// and nothing else preempts anything.
pub fn preempts(first: Context, second: Context) -> (yes: bool)
    ensures
        yes == can_preempt(first, second),
{
    first == Context::Interrupt && second == Context::Idle
}

/// No resource can be used from both contexts.
pub proof fn lemma_single_owner(resource: Resource, first: Context, second: Context)
    requires
        owner(resource) == first,
        owner(resource) == second,
    ensures
        first == second,
{
}

/// The handles that the interrupt context owns.
pub struct InterruptHandles<Timer> {
    /// The hardware timer, acknowledged on each interrupt.
    pub timer: Timer,
}

/// The handles that the main loop owns.
pub struct IdleHandles<Led, Strip, Radio> {
    /// The on-board status LED.
    pub status_led: Led,
    /// The driver of the LED strip.
    pub led_strip: Strip,
    /// The radio transport.
    pub radio: Radio,
}

/// Hands each context the resources it owns. The handles are moved, so that
/// after the call each of them is reachable from one context only.
pub fn partition<Timer, Led, Strip, Radio>(
    timer: Timer,
    status_led: Led,
    led_strip: Strip,
    radio: Radio,
) -> (owned: (InterruptHandles<Timer>, IdleHandles<Led, Strip, Radio>))
    ensures
        owned.0.timer == timer,
        owned.1.status_led == status_led,
        owned.1.led_strip == led_strip,
        owned.1.radio == radio,
{
    (InterruptHandles { timer }, IdleHandles { status_led, led_strip, radio })
}

/// Whether the interrupt handler is running.
#[derive(Clone, Copy, Debug, PartialEq, Eq, Structural)]
pub enum InterruptState {
    /// No handler is running: the main loop has the processor.
    Idle,
    /// The handler is running and the main loop is suspended.
    Running,
}

/// Which context has the processor. The main loop's own state is not part
/// of this value: entering and leaving the handler cannot change it, so the
/// loop resumes where it was preempted.
#[derive(Clone, Copy, Debug)]
pub struct Scheduler {
    interrupt: InterruptState,
}

impl Scheduler {
    /// The state of the interrupt context.
    pub closed spec fn state(self) -> InterruptState {
        self.interrupt
    }

    /// The context that has the processor.
    pub open spec fn running(self) -> Context {
        match self.state() {
            InterruptState::Running => Context::Interrupt,
            InterruptState::Idle => Context::Idle,
        }
    }

    /// The scheduler at start-up: the main loop runs.
    pub fn new() -> (scheduler: Scheduler)
        ensures
            scheduler.state() == InterruptState::Idle,
    {
        Scheduler { interrupt: InterruptState::Idle }
    }

    /// The hardware timer signals: the handler runs. Returns whether the main
    /// loop was preempted by this signal, which it was unless the handler was
    /// running already.
    pub fn timer_signal(&mut self) -> (preempted: bool)
        ensures
            final(self).state() == InterruptState::Running,
            preempted == (old(self).state() == InterruptState::Idle),
    {
        let preempted = self.interrupt == InterruptState::Idle;
        self.interrupt = InterruptState::Running;
        preempted
    }

    /// The handler returns: the main loop has the processor again.
    pub fn handler_return(&mut self)
        ensures
            final(self).state() == InterruptState::Idle,
    {
        self.interrupt = InterruptState::Idle;
    }

    /// The context that has the processor.
    pub fn running_context(&self) -> (context: Context)
        ensures
            context == self.running(),
    {
        match self.interrupt {
            InterruptState::Running => Context::Interrupt,
            InterruptState::Idle => Context::Idle,
        }
    }
}

} // verus!
