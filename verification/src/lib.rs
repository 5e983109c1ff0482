//! Verified logic of a set of Arduino lessons: an HD44780 display driver,
//! custom characters, a seven-segment indicator, PWM brightness control,
//! a buzzer, a millisecond clock and small input state machines.
//!
//! The board itself (pins, timers, interrupts, serial port) stays outside:
//! the functions here compute what to write and in which order, and the
//! caller performs it.

pub mod brightness;
pub mod bus;
pub mod buzzer;
pub mod glyph;
pub mod inputs;
pub mod lcd;
pub mod millis;
pub mod pulsar;
pub mod seven_segment;
