//! Pulse-width modulation: the three PWM blocks, the pins their four
//! compare channels drive, and the alignment of each channel.
//!
//! PWM0 drives pins 0, 1, 2, 3; PWM1 pins 20, 19, 21, 22; PWM2 pins 10, 11,
//! 12, 13; each through the second hardware function of the pin.

use vstd::prelude::*;
use crate::gpio::{Gpio, PinConfig, PinState, NUM_PINS};

verus! {

/// Channel
#[derive(Clone, Copy, Debug, PartialEq, Eq, Structural)]
pub enum Channel {
    /// CH0
    _0,
    /// CH1
    _1,
    /// CH2
    _2,
    /// CH3
    _3,
}

impl Channel {
    /// Number of the channel.
    pub open spec fn index(self) -> int {
        match self {
            Channel::_0 => 0,
            Channel::_1 => 1,
            Channel::_2 => 2,
            Channel::_3 => 3,
        }
    }
}

/// Alignment of a channel's pulse.
#[derive(Clone, Copy, Debug, PartialEq, Eq, Structural)]
pub enum Align {
    /// Left
    Left,
    /// Center
    Center,
    /// Right
    Right,
}

/// Which of the three PWM blocks.
#[derive(Clone, Copy, Debug, PartialEq, Eq, Structural)]
pub enum Instance {
    /// PWM0
    Pwm0,
    /// PWM1
    Pwm1,
    /// PWM2
    Pwm2,
}

/// The pin that `channel` of block `instance` drives.
pub open spec fn pin_spec(instance: Instance, channel: Channel) -> u32 {
    match instance {
        Instance::Pwm0 => match channel {
            Channel::_0 => 0,
            Channel::_1 => 1,
            Channel::_2 => 2,
            Channel::_3 => 3,
        },
        Instance::Pwm1 => match channel {
            Channel::_0 => 20,
            Channel::_1 => 19,
            Channel::_2 => 21,
            Channel::_3 => 22,
        },
        Instance::Pwm2 => match channel {
            Channel::_0 => 10,
            Channel::_1 => 11,
            Channel::_2 => 12,
            Channel::_3 => 13,
        },
    }
}

/// The pin that `channel` of block `instance` drives.
pub fn channel_pin(instance: Instance, channel: Channel) -> (r: u32)
    ensures
        r == pin_spec(instance, channel),
        r < NUM_PINS,
{
    match instance {
        Instance::Pwm0 => match channel {
            Channel::_0 => 0,
            Channel::_1 => 1,
            Channel::_2 => 2,
            Channel::_3 => 3,
        },
        Instance::Pwm1 => match channel {
            Channel::_0 => 20,
            Channel::_1 => 19,
            Channel::_2 => 21,
            Channel::_3 => 22,
        },
        Instance::Pwm2 => match channel {
            Channel::_0 => 10,
            Channel::_1 => 11,
            Channel::_2 => 12,
            Channel::_3 => 13,
        },
    }
}

/// Whether a channel of this alignment compares center-aligned.
pub open spec fn align_center(align: Align) -> bool {
    align == Align::Center
}

/// Whether the pin of a channel of this alignment is inverted.
pub open spec fn align_inverted(align: Align) -> bool {
    align == Align::Left
}

/// Abstract state of a PWM block.
pub struct PwmView {
    /// Which block.
    pub instance: Instance,
    /// Whether the counter runs.
    pub enalways: bool,
    /// The counter scale.
    pub scale: u8,
    /// Whether the counter resets on a match of compare channel 0.
    pub zerocmp: bool,
    /// The counter.
    pub count: u32,
    /// Whether each channel compares center-aligned.
    pub center: Seq<bool>,
    /// The compare value of each channel.
    pub cmp: Seq<u16>,
}

/// Register image of a PWM block.
pub struct Pwm {
    instance: Instance,
    enalways: bool,
    scale: u8,
    zerocmp: bool,
    count: u32,
    cmp0center: bool,
    cmp1center: bool,
    cmp2center: bool,
    cmp3center: bool,
    cmp0: u16,
    cmp1: u16,
    cmp2: u16,
    cmp3: u16,
}

impl View for Pwm {
    type V = PwmView;

    closed spec fn view(&self) -> PwmView {
        PwmView {
            instance: self.instance,
            enalways: self.enalways,
            scale: self.scale,
            zerocmp: self.zerocmp,
            count: self.count,
            center: seq![self.cmp0center, self.cmp1center, self.cmp2center, self.cmp3center],
            cmp: seq![self.cmp0, self.cmp1, self.cmp2, self.cmp3],
        }
    }
}

impl Pwm {
    /// The scale field is four bits wide.
    pub closed spec fn wf(&self) -> bool {
        self.scale < 16
    }

    /// Block `instance` as it comes out of reset: stopped, every field zero.
    pub fn new(instance: Instance) -> (r: Pwm)
        ensures
            r.wf(),
            r@ == (PwmView {
                instance,
                enalways: false,
                scale: 0,
                zerocmp: false,
                count: 0,
                center: seq![false, false, false, false],
                cmp: seq![0u16, 0u16, 0u16, 0u16],
            }),
    {
        Pwm {
            instance,
            enalways: false,
            scale: 0,
            zerocmp: false,
            count: 0,
            cmp0center: false,
            cmp1center: false,
            cmp2center: false,
            cmp3center: false,
            cmp0: 0,
            cmp1: 0,
            cmp2: 0,
            cmp3: 0,
        }
    }

    /// Starts the counter from zero, running always, with scale 8 and reset
    /// on a match of channel 0.
    pub fn init(&mut self)
        requires
            old(self).wf(),
        ensures
            final(self).wf(),
            final(self)@ == (PwmView { enalways: true, scale: 8, zerocmp: true, count: 0, ..old(self)@ }),
    {
        self.enalways = true;
        self.scale = 8;
        self.zerocmp = true;
        self.count = 0;
    }

    /// Routes `channel` to its pin and aligns it: left alignment inverts
    /// the pin, center alignment compares center-aligned, right alignment
    /// does neither.
    pub fn enable(&mut self, channel: Channel, align: Align, gpio: &mut Gpio)
        requires
            old(self).wf(),
            old(gpio)@.len() == NUM_PINS,
        ensures
            final(self).wf(),
            final(self)@ == (PwmView {
                center: old(self)@.center.update(channel.index(), align_center(align)),
                ..old(self)@
            }),
            final(gpio)@ == old(gpio)@.update(
                pin_spec(old(self)@.instance, channel) as int,
                PinState { config: PinConfig::IoFn1, inverted: align_inverted(align) },
            ),
    {
        let pin = channel_pin(self.instance, channel);
        gpio.init(pin, PinConfig::IoFn1);
        match align {
            Align::Left => {
                gpio.set_invert(pin, true);
                self.set_center(channel, false);
            },
            Align::Center => {
                gpio.set_invert(pin, false);
                self.set_center(channel, true);
            },
            Align::Right => {
                gpio.set_invert(pin, false);
                self.set_center(channel, false);
            },
        }
        assert(gpio@ =~= old(gpio)@.update(
            pin as int,
            PinState { config: PinConfig::IoFn1, inverted: align_inverted(align) },
        ));
    }

    /// Returns the pin of `channel` to a plain input.
    pub fn disable(&self, channel: Channel, gpio: &mut Gpio)
        ensures
            final(gpio)@ == old(gpio)@.update(
                pin_spec(self@.instance, channel) as int,
                PinState { config: PinConfig::Input, ..old(gpio)@[pin_spec(self@.instance, channel) as int] },
            ),
    {
        let pin = channel_pin(self.instance, channel);
        gpio.init(pin, PinConfig::Input);
    }

    /// Flips the inversion of the pin of `channel`.
    pub fn invert(&self, channel: Channel, gpio: &mut Gpio)
        ensures
            final(gpio)@ == old(gpio)@.update(
                pin_spec(self@.instance, channel) as int,
                PinState {
                    inverted: !old(gpio)@[pin_spec(self@.instance, channel) as int].inverted,
                    ..old(gpio)@[pin_spec(self@.instance, channel) as int]
                },
            ),
    {
        let pin = channel_pin(self.instance, channel);
        gpio.invert(pin);
    }

    /// Sets the scale from a period in core clock ticks: `65535 / period`,
    /// which must fit the four-bit field.
    pub fn set_period(&mut self, period: u32)
        requires
            old(self).wf(),
            period > 0,
            65535u32 / period < 16,
        ensures
            final(self).wf(),
            final(self)@ == (PwmView { scale: (65535u32 / period) as u8, ..old(self)@ }),
    {
        let scale = (u16::MAX as u32) / period;
        self.scale = scale as u8;
    }

    /// The period in core clock ticks: the scale times 65535.
    pub fn get_period(&self) -> (r: u32)
        requires
            self.wf(),
        ensures
            r == self@.scale as int * 65535,
    {
        self.scale as u32 * u16::MAX as u32
    }

    /// Makes `channel` left-aligned: not center-aligned, and the inversion
    /// of its pin flipped.
    pub fn align_left(&mut self, channel: Channel, gpio: &mut Gpio)
        requires
            old(self).wf(),
        ensures
            final(self).wf(),
            final(self)@ == (PwmView { center: old(self)@.center.update(channel.index(), false), ..old(self)@ }),
            final(gpio)@ == old(gpio)@.update(
                pin_spec(old(self)@.instance, channel) as int,
                PinState {
                    inverted: !old(gpio)@[pin_spec(old(self)@.instance, channel) as int].inverted,
                    ..old(gpio)@[pin_spec(old(self)@.instance, channel) as int]
                },
            ),
    {
        self.set_center(channel, false);
        self.invert(channel, gpio);
    }

    /// Sets whether `channel` compares center-aligned.
    pub fn set_center(&mut self, channel: Channel, value: bool)
        requires
            old(self).wf(),
        ensures
            final(self).wf(),
            final(self)@ == (PwmView { center: old(self)@.center.update(channel.index(), value), ..old(self)@ }),
    {
        match channel {
            Channel::_0 => self.cmp0center = value,
            Channel::_1 => self.cmp1center = value,
            Channel::_2 => self.cmp2center = value,
            Channel::_3 => self.cmp3center = value,
        }
        assert(self@.center =~= old(self)@.center.update(channel.index(), value));
    }

    /// The compare value of `channel`.
    pub fn get_cmp(&self, channel: Channel) -> (r: u16)
        ensures
            r == self@.cmp[channel.index()],
    {
        match channel {
            Channel::_0 => self.cmp0,
            Channel::_1 => self.cmp1,
            Channel::_2 => self.cmp2,
            Channel::_3 => self.cmp3,
        }
    }

    /// Sets the compare value of `channel`.
    pub fn set_cmp(&mut self, channel: Channel, cmp: u16)
        requires
            old(self).wf(),
        ensures
            final(self).wf(),
            final(self)@ == (PwmView { cmp: old(self)@.cmp.update(channel.index(), cmp), ..old(self)@ }),
    {
        match channel {
            Channel::_0 => self.cmp0 = cmp,
            Channel::_1 => self.cmp1 = cmp,
            Channel::_2 => self.cmp2 = cmp,
            Channel::_3 => self.cmp3 = cmp,
        }
        assert(self@.cmp =~= old(self)@.cmp.update(channel.index(), cmp));
    }
}

} // verus!
