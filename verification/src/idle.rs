//! The decisions of the cooperative main loop: what level the status LED
//! gets next, how long the loop then spins, and whether the periodic work is
//! due. The loop's caller performs what a step decides.

use crate::periodic::{PeriodicTrigger, TriggerState};
use vstd::prelude::*;

verus! {

/// The values supplied at start-up.
#[derive(Clone, Copy, Debug, PartialEq, Eq, Structural)]
pub struct Config {
    /// The interval of the periodic work, in milliseconds.
    pub trigger_interval_ms: u32,
    /// The brightness of the LED strip, from 0 to 255.
    pub brightness: u8,
    /// How many frames the LED strip is to show each second.
    pub frames_per_second: u8,
    /// How long the status LED keeps each level, in milliseconds.
    pub blink_hold_ms: u8,
}

impl Config {
    /// The default values: periodic work every 500 ms, brightness 128,
    /// 30 frames each second, the status LED changing every 200 ms.
    pub open spec fn standard() -> Config {
        Config {
            trigger_interval_ms: 500,
            brightness: 128,
            frames_per_second: 30,
            blink_hold_ms: 200,
        }
    }
}

impl Default for Config {
    fn default() -> (config: Config)
        ensures
            config == Config::standard(),
    {
        Config { trigger_interval_ms: 500, brightness: 128, frames_per_second: 30, blink_hold_ms: 200 }
    }
}

/// What one pass of the main loop is to do, in this order: drive the status
/// LED to `led_high`, run the periodic work if `periodic_due`, then spin for
/// `hold_ms` milliseconds.
#[derive(Clone, Copy, Debug, PartialEq, Eq, Structural)]
pub struct IdleStep {
    /// The level to drive the status LED to.
    pub led_high: bool,
    /// Whether the periodic work is to run in this pass.
    pub periodic_due: bool,
    /// The bounded busy-wait that ends the pass, in milliseconds.
    pub hold_ms: u8,
}

/// The state of the main loop between two passes.
#[derive(Clone, Copy, Debug)]
pub struct IdleLoop {
    periodic: PeriodicTrigger,
    led_high: bool,
    hold_ms: u8,
}

impl IdleLoop {
    /// The trigger of the periodic work.
    pub closed spec fn trigger(self) -> PeriodicTrigger {
        self.periodic
    }

    /// The level that the status LED was last driven to.
    pub closed spec fn led_level(self) -> bool {
        self.led_high
    }

    /// How long each pass spins, in milliseconds.
    pub closed spec fn hold(self) -> u8 {
        self.hold_ms
    }

    /// The loop before its first pass: the status LED low, the periodic work
    /// due one interval after clock value zero.
    pub fn new(config: &Config) -> (idle: IdleLoop)
        ensures
            idle.trigger()@ == (TriggerState {
                interval_ms: config.trigger_interval_ms,
                last_fired_ms: 0,
            }),
            !idle.led_level(),
            idle.hold() == config.blink_hold_ms,
    {
        IdleLoop {
            periodic: PeriodicTrigger::new(config.trigger_interval_ms),
            led_high: false,
            hold_ms: config.blink_hold_ms,
        }
    }

    /// Decides one pass of the loop at clock value `now`: the status LED
    /// changes its level, the periodic trigger is polled once, and the pass
    /// ends with the configured spin.
    pub fn step(&mut self, now: u32) -> (pass: IdleStep)
        ensures
            pass.led_high == !old(self).led_level(),
            pass.periodic_due == old(self).trigger()@.due(now),
            pass.hold_ms == old(self).hold(),
            final(self).led_level() == pass.led_high,
            final(self).hold() == old(self).hold(),
            final(self).trigger()@ == old(self).trigger()@.polled(now),
    {
        let periodic_due = self.periodic.ready(now);
        self.led_high = !self.led_high;
        IdleStep { led_high: self.led_high, periodic_due, hold_ms: self.hold_ms }
    }
}

} // verus!
