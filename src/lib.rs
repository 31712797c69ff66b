//! Interrupt, timer and peripheral logic for the FE310 (E310x) family of
//! RISC-V microcontrollers and the HiFive1 / LoFive boards built on them.
//!
//! Each peripheral is described by a register image: a plain value holding
//! what the hardware block holds, with the operations of the block as
//! methods whose contracts state their effect on an abstract view.

pub mod bits;
pub mod plic;
pub mod clint;
pub mod rtc;
pub mod time;
pub mod trap;
pub mod gpio;
pub mod pwm;
pub mod led;
pub mod flash;
