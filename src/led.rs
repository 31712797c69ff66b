//! On-board user LEDs.
//!
//! HiFive1 (and rev B): red on pin 22, green on pin 19, blue on pin 21.
//! RedV: blue on pin 5.

use vstd::prelude::*;

verus! {

/// Generic LED
pub trait Led {
    /// Turns the LED off
    fn off(&mut self);

    /// Turns the LED on
    fn on(&mut self);
}

} // verus!
