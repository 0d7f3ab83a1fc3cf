//! A blinking status light as a verified state machine.
//!
//! The [`blink`] module decides, tick by tick, which level the output pin
//! takes, whether a status line is due and how long to wait before the next
//! tick. The [`firmware`] module adds the halt after a fault, from which no
//! tick does anything again. Driving the pin, printing and waiting are left to
//! the caller.
pub mod blink;
pub mod firmware;
