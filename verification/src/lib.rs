//! Time base, periodic trigger, resource ownership and radio bring-up rules
//! for a small two-context firmware: one timer interrupt and one cooperative
//! main loop.

pub mod clock;
pub mod contexts;
pub mod idle;
pub mod periodic;
pub mod radio;
pub mod startup;
