//! Units of time and frequency.

use vstd::prelude::*;
use crate::clint::AONCLK_HZ;

verus! {

/// `Hz^-1`
#[derive(Clone, Copy, Debug)]
pub struct IHertz<T>(pub T);

impl<T> IHertz<T> {
    /// Inverts this quantity.
    pub fn invert(self) -> (r: Hertz<T>)
        ensures
            r.0 == self.0,
    {
        Hertz(self.0)
    }

    /// Applies `f` to the inner value.
    pub fn map<F: FnOnce(T) -> T>(self, f: F) -> (r: IHertz<T>)
        requires
            f.requires((self.0,)),
        ensures
            f.ensures((self.0,), r.0),
    {
        IHertz(f(self.0))
    }
}

/// `Hz`
#[derive(Clone, Copy, Debug)]
pub struct Hertz<T>(pub T);

impl<T> Hertz<T> {
    /// Inverts this quantity.
    pub fn invert(self) -> (r: IHertz<T>)
        ensures
            r.0 == self.0,
    {
        IHertz(self.0)
    }

    /// Applies `f` to the inner value.
    pub fn map<F: FnOnce(T) -> T>(self, f: F) -> (r: Hertz<T>)
        requires
            f.requires((self.0,)),
        ensures
            f.ensures((self.0,), r.0),
    {
        Hertz(f(self.0))
    }
}

/// `us`
#[derive(Clone, Copy, Debug)]
pub struct Microseconds<T>(pub T);

impl<T> Microseconds<T> {
    /// Applies `f` to the inner value.
    pub fn map<F: FnOnce(T) -> T>(self, f: F) -> (r: Microseconds<T>)
        requires
            f.requires((self.0,)),
        ensures
            f.ensures((self.0,), r.0),
    {
        Microseconds(f(self.0))
    }
}

/// `ms`
#[derive(Clone, Copy, Debug)]
pub struct Milliseconds<T>(pub T);

impl<T> Milliseconds<T> {
    /// Applies `f` to the inner value.
    pub fn map<F: FnOnce(T) -> T>(self, f: F) -> (r: Milliseconds<T>)
        requires
            f.requires((self.0,)),
        ensures
            f.ensures((self.0,), r.0),
    {
        Milliseconds(f(self.0))
    }
}

/// `s`
#[derive(Clone, Copy, Debug)]
pub struct Seconds<T>(pub T);

impl<T> Seconds<T> {
    /// Applies `f` to the inner value.
    pub fn map<F: FnOnce(T) -> T>(self, f: F) -> (r: Seconds<T>)
        requires
            f.requires((self.0,)),
        ensures
            f.ensures((self.0,), r.0),
    {
        Seconds(f(self.0))
    }
}

impl Microseconds<u64> {
    /// The number of always-on clock ticks in this duration, rounded down.
    pub fn to_aon_ticks(self) -> (r: u64)
        requires
            self.0 as int * AONCLK_HZ as int <= u64::MAX,
        ensures
            r as int == self.0 as int * AONCLK_HZ as int / 1_000_000,
    {
        self.0 * (AONCLK_HZ as u64) / 1_000_000
    }
}

impl Milliseconds<u64> {
    /// The number of always-on clock ticks in this duration, rounded down.
    pub fn to_aon_ticks(self) -> (r: u64)
        requires
            self.0 as int * AONCLK_HZ as int <= u64::MAX,
        ensures
            r as int == self.0 as int * AONCLK_HZ as int / 1000,
    {
        self.0 * (AONCLK_HZ as u64) / 1000
    }
}

impl Seconds<u64> {
    /// The number of always-on clock ticks in this duration.
    pub fn to_aon_ticks(self) -> (r: u64)
        requires
            self.0 as int * AONCLK_HZ as int <= u64::MAX,
        ensures
            r as int == self.0 as int * AONCLK_HZ as int,
    {
        self.0 * (AONCLK_HZ as u64)
    }
}

/// `u32` and `u64` extension trait
pub trait UExt<T>: Sized {
    /// The value that the units wrap.
    spec fn magnitude(self) -> T;

    /// Wraps in `Hz`.
    fn hz(self) -> (r: Hertz<T>)
        ensures
            r.0 == self.magnitude(),
    ;

    /// Wraps in `Milliseconds`.
    fn ms(self) -> (r: Milliseconds<T>)
        ensures
            r.0 == self.magnitude(),
    ;

    /// Wraps in `Seconds`.
    fn s(self) -> (r: Seconds<T>)
        ensures
            r.0 == self.magnitude(),
    ;

    /// Wraps in `Microseconds`.
    fn us(self) -> (r: Microseconds<T>)
        ensures
            r.0 == self.magnitude(),
    ;
}

impl UExt<u32> for u32 {
    open spec fn magnitude(self) -> u32 {
        self
    }

    fn hz(self) -> (r: Hertz<u32>) {
        Hertz(self)
    }

    fn ms(self) -> (r: Milliseconds<u32>) {
        Milliseconds(self)
    }

    fn s(self) -> (r: Seconds<u32>) {
        Seconds(self)
    }

    fn us(self) -> (r: Microseconds<u32>) {
        Microseconds(self)
    }
}

impl UExt<u64> for u64 {
    open spec fn magnitude(self) -> u64 {
        self
    }

    fn hz(self) -> (r: Hertz<u64>) {
        Hertz(self)
    }

    fn ms(self) -> (r: Milliseconds<u64>) {
        Milliseconds(self)
    }

    fn s(self) -> (r: Seconds<u64>) {
        Seconds(self)
    }

    fn us(self) -> (r: Microseconds<u64>) {
        Microseconds(self)
    }
}

} // verus!
