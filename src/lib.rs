//! Open-loop driver logic for an SG90-class hobby servo on a PWM channel.
//!
//! The library maps commanded angles to duty-register values and back, and
//! decides each step of bringing up the timer and channel. The hardware calls
//! themselves are made by the caller, which hands their outcomes back as plain
//! values.

pub mod conversion;
pub mod servo;

pub use conversion::{
    FREQUENCY_HZ, MAX_ANGLE, MAX_PULSE_US, MIN_ANGLE, MIN_PULSE_US, PERIOD_US, RESOLUTION_BITS,
};
pub use servo::{Error, ServoSG90, SetupAction, SetupEvent, TimerSettings};
