//! The start-up boundary: what the hardware bring-up steps gave becomes
//! either the device's state, with every resource handed to its owner, or
//! one error that says which step failed.

use crate::clock::{ClockState, MonotonicClock};
use crate::contexts::{partition, IdleHandles, InterruptHandles, InterruptState, Scheduler};
use crate::idle::{Config, IdleLoop};
use crate::periodic::TriggerState;
use crate::radio::RadioInitError;
use vstd::prelude::*;

verus! {

/// The step of the bring-up that could not proceed.
#[derive(Clone, Copy, Debug, PartialEq, Eq, Structural)]
pub enum InitError {
    /// The clock source of the timer was not available.
    ClockSourceUnavailable,
    /// A peripheral could not be claimed.
    PeripheralClaim,
    /// The radio's handshake failed.
    Radio(RadioInitError),
}

impl InitError {
    /// The number of pulses in the status LED's error pattern.
    pub open spec fn pulses(self) -> u8 {
        match self {
            InitError::ClockSourceUnavailable => 2,
            InitError::PeripheralClaim => 3,
            InitError::Radio(_) => 4,
        }
    }

    /// How many times the status LED pulses, between pauses, to show this
    /// error: two for the clock source, three for a peripheral, four for the
    /// radio. The running device shows single, even pulses.
    pub fn blink_count(&self) -> (count: u8)
        ensures
            count == self.pulses(),
    {
        match self {
            InitError::ClockSourceUnavailable => 2,
            InitError::PeripheralClaim => 3,
            InitError::Radio(_) => 4,
        }
    }
}

/// Errors of different steps show different patterns, and none shows the
/// single pulse of a running device.
pub proof fn lemma_patterns_tell_steps_apart(first: InitError, second: InitError)
    ensures
        first.pulses() > 1,
        first.pulses() == second.pulses() ==> (first is ClockSourceUnavailable
            <==> second is ClockSourceUnavailable) && (first is PeripheralClaim
            <==> second is PeripheralClaim) && (first is Radio <==> second is Radio),
{
}

/// The first step that failed, in the order in which the bring-up makes
/// them: the timer's clock source, the peripherals, the radio.
pub open spec fn first_failure(
    timer_ready: bool,
    peripherals_claimed: bool,
    radio_fault: Option<RadioInitError>,
) -> Option<InitError> {
    if !timer_ready {
        Some(InitError::ClockSourceUnavailable)
    } else if !peripherals_claimed {
        Some(InitError::PeripheralClaim)
    } else {
        match radio_fault {
            Some(fault) => Some(InitError::Radio(fault)),
            None => None,
        }
    }
}

/// The device after a bring-up in which every step succeeded.
pub struct Device<Timer, Led, Strip, Radio> {
    /// What the interrupt context owns.
    pub interrupt: InterruptHandles<Timer>,
    /// What the main loop owns.
    pub idle: IdleHandles<Led, Strip, Radio>,
    /// The time base, the one value that both contexts use.
    pub clock: MonotonicClock,
    /// The main loop's state before its first pass.
    pub idle_loop: IdleLoop,
    /// The record of which context runs.
    pub scheduler: Scheduler,
}

/// Ends the bring-up. `timer` is `None` where the timer's clock source was
/// not available, `status_led` and `led_strip` are `None` where the
/// peripheral could not be claimed, and `radio` is what the radio's bring-up
/// returned. With every step done the device starts with the clock at zero
/// and each handle with its owner; otherwise the first failed step is
/// reported and nothing is started.
pub fn bring_up<Timer, Led, Strip, Radio>(
    timer: Option<Timer>,
    status_led: Option<Led>,
    led_strip: Option<Strip>,
    radio: Result<Radio, RadioInitError>,
    config: &Config,
) -> (made: Result<Device<Timer, Led, Strip, Radio>, InitError>)
    ensures
        match first_failure(
            timer is Some,
            status_led is Some && led_strip is Some,
            match radio {
                Ok(_) => None,
                Err(fault) => Some(fault),
            },
        ) {
            Some(error) => made is Err && made->Err_0 == error,
            None => {
                &&& made is Ok
                &&& made->Ok_0.interrupt.timer == timer->0
                &&& made->Ok_0.idle.status_led == status_led->0
                &&& made->Ok_0.idle.led_strip == led_strip->0
                &&& made->Ok_0.idle.radio == radio->Ok_0
                &&& made->Ok_0.clock@ == ClockState::zero()
                &&& made->Ok_0.idle_loop.trigger()@ == (TriggerState {
                    interval_ms: config.trigger_interval_ms,
                    last_fired_ms: 0,
                })
                &&& !made->Ok_0.idle_loop.led_level()
                &&& made->Ok_0.idle_loop.hold() == config.blink_hold_ms
                &&& made->Ok_0.scheduler.state() == InterruptState::Idle
            },
        },
{
    let timer = match timer {
        Some(timer) => timer,
        None => {
            return Err(InitError::ClockSourceUnavailable);
        },
    };
    let (status_led, led_strip) = match (status_led, led_strip) {
        (Some(status_led), Some(led_strip)) => (status_led, led_strip),
        _ => {
            return Err(InitError::PeripheralClaim);
        },
    };
    let radio = match radio {
        Ok(radio) => radio,
        Err(fault) => {
            return Err(InitError::Radio(fault));
        },
    };
    let (interrupt, idle) = partition(timer, status_led, led_strip, radio);
    Ok(
        Device {
            interrupt,
            idle,
            clock: MonotonicClock::new(),
            idle_loop: IdleLoop::new(config),
            scheduler: Scheduler::new(),
        },
    )
}

} // verus!
