//! General-purpose I/O: the function, direction and output inversion of
//! each of the 32 pins of the GPIO block.

use vstd::prelude::*;
use crate::bits::{bit_of, lemma_bit_ops};

verus! {

/// Number of pins of the GPIO block.
pub const NUM_PINS: u32 = 32;

/// What drives a pin.
#[derive(Clone, Copy, Debug, PartialEq, Eq, Structural)]
pub enum PinConfig {
    /// A plain input.
    Input,
    /// A plain output.
    Output,
    /// Routed to the first hardware function of the pin.
    IoFn0,
    /// Routed to the second hardware function of the pin.
    IoFn1,
}

/// Abstract state of one pin.
#[derive(Clone, Copy, Debug, PartialEq, Eq, Structural)]
pub struct PinState {
    /// What drives the pin.
    pub config: PinConfig,
    /// Whether the output of the pin is inverted.
    pub inverted: bool,
}

/// Register image of the GPIO block.
pub struct Gpio {
    input_en: u32,
    output_en: u32,
    iof_en: u32,
    iof_sel: u32,
    out_xor: u32,
}

/// The configuration that the enable and select bits of a pin encode.
pub open spec fn config_of(output_en: bool, iof_en: bool, iof_sel: bool) -> PinConfig {
    if iof_en {
        if iof_sel {
            PinConfig::IoFn1
        } else {
            PinConfig::IoFn0
        }
    } else if output_en {
        PinConfig::Output
    } else {
        PinConfig::Input
    }
}

impl View for Gpio {
    type V = Seq<PinState>;

    closed spec fn view(&self) -> Seq<PinState> {
        Seq::new(
            NUM_PINS as nat,
            |i: int|
                PinState {
                    config: config_of(
                        bit_of(self.output_en, i as u32),
                        bit_of(self.iof_en, i as u32),
                        bit_of(self.iof_sel, i as u32),
                    ),
                    inverted: bit_of(self.out_xor, i as u32),
                },
        )
    }
}

/// `w` with bit `pin` set to `value`.
fn with_bit(w: u32, pin: u32, value: bool) -> (r: u32)
    requires
        pin < 32,
    ensures
        forall|i: u32| i < 32 ==> #[trigger] bit_of(r, i) == if i == pin {
            value
        } else {
            bit_of(w, i)
        },
{
    let mask = 1u32 << pin;
    let r = if value {
        w | mask
    } else {
        w & !mask
    };
    proof {
        assert forall|i: u32| i < 32 implies #[trigger] bit_of(r, i) == if i == pin {
            value
        } else {
            bit_of(w, i)
        } by {
            lemma_bit_ops(w, pin, i);
        }
    }
    r
}

impl Gpio {
    /// The block as it comes out of reset: every pin a plain input, no
    /// output inverted.
    pub fn new() -> (r: Gpio)
        ensures
            r@.len() == NUM_PINS,
            forall|i: int| 0 <= i < NUM_PINS ==> #[trigger] r@[i] == (PinState {
                config: PinConfig::Input,
                inverted: false,
            }),
    {
        let r = Gpio { input_en: 0, output_en: 0, iof_en: 0, iof_sel: 0, out_xor: 0 };
        proof {
            assert forall|i: int| 0 <= i < NUM_PINS implies #[trigger] r@[i] == (PinState {
                config: PinConfig::Input,
                inverted: false,
            }) by {
                lemma_bit_ops(0, 0, i as u32);
            }
        }
        r
    }

    /// The state of pin `pin`.
    pub fn pin(&self, pin: u32) -> (r: PinState)
        requires
            pin < NUM_PINS,
        ensures
            r == self@[pin as int],
    {
        let out = (self.output_en >> pin) & 1 == 1;
        let iof = (self.iof_en >> pin) & 1 == 1;
        let sel = (self.iof_sel >> pin) & 1 == 1;
        let config = if iof {
            if sel {
                PinConfig::IoFn1
            } else {
                PinConfig::IoFn0
            }
        } else if out {
            PinConfig::Output
        } else {
            PinConfig::Input
        };
        PinState { config, inverted: (self.out_xor >> pin) & 1 == 1 }
    }

    /// Configures what drives pin `pin`; its inversion is untouched.
    pub fn init(&mut self, pin: u32, config: PinConfig)
        requires
            pin < NUM_PINS,
        ensures
            final(self)@ == old(self)@.update(
                pin as int,
                PinState { config, ..old(self)@[pin as int] },
            ),
    {
        match config {
            PinConfig::Input => {
                self.iof_en = with_bit(self.iof_en, pin, false);
                self.output_en = with_bit(self.output_en, pin, false);
                self.input_en = with_bit(self.input_en, pin, true);
            },
            PinConfig::Output => {
                self.iof_en = with_bit(self.iof_en, pin, false);
                self.input_en = with_bit(self.input_en, pin, false);
                self.output_en = with_bit(self.output_en, pin, true);
            },
            PinConfig::IoFn0 => {
                self.iof_sel = with_bit(self.iof_sel, pin, false);
                self.iof_en = with_bit(self.iof_en, pin, true);
            },
            PinConfig::IoFn1 => {
                self.iof_sel = with_bit(self.iof_sel, pin, true);
                self.iof_en = with_bit(self.iof_en, pin, true);
            },
        }
        assert(self@ =~= old(self)@.update(pin as int, PinState { config, ..old(self)@[pin as int] }));
    }

    /// Sets whether the output of pin `pin` is inverted.
    pub fn set_invert(&mut self, pin: u32, value: bool)
        requires
            pin < NUM_PINS,
        ensures
            final(self)@ == old(self)@.update(
                pin as int,
                PinState { inverted: value, ..old(self)@[pin as int] },
            ),
    {
        self.out_xor = with_bit(self.out_xor, pin, value);
        assert(self@ =~= old(self)@.update(
            pin as int,
            PinState { inverted: value, ..old(self)@[pin as int] },
        ));
    }

    /// Flips the inversion of the output of pin `pin`.
    pub fn invert(&mut self, pin: u32)
        requires
            pin < NUM_PINS,
        ensures
            final(self)@ == old(self)@.update(
                pin as int,
                PinState { inverted: !old(self)@[pin as int].inverted, ..old(self)@[pin as int] },
            ),
    {
        let now = (self.out_xor >> pin) & 1 == 1;
        self.set_invert(pin, !now);
    }
}

} // verus!
