//! Real-time clock: a 48-bit counter of the always-on clock, scaled down
//! and compared with a 32-bit compare value, with a compare-pending flag.

use vstd::prelude::*;
use crate::plic::Priority;
use crate::clint::WouldBlock;

verus! {

/// Exclusive bound of the counter values that a configuration accepts.
pub const RTC_COUNTER_LIMIT: u64 = 0x1_FFFF_FFFF_FFFF;

/// The counter is 48 bits wide.
pub const RTC_COUNTER_MODULUS: u64 = 0x1_0000_0000_0000;

/// The scaled counter that the compare value is held against: the counter
/// shifted right by `scale`, in 32 bits.
pub open spec fn scaled(counter: u64, scale: u8) -> u32 {
    (counter >> (scale as u64)) as u32
}

/// Configuration written to the real-time clock in one go.
pub struct RtcConf {
    enalways: bool,
    scale: u8,
    counter: u64,
    cmp: u32,
    priority: Priority,
}

impl RtcConf {
    /// Whether the counter runs.
    pub closed spec fn enalways_spec(&self) -> bool {
        self.enalways
    }

    /// The scale, the shift applied to the counter before the compare.
    pub closed spec fn scale_spec(&self) -> u8 {
        self.scale
    }

    /// The initial counter value.
    pub closed spec fn counter_spec(&self) -> u64 {
        self.counter
    }

    /// The compare value.
    pub closed spec fn cmp_spec(&self) -> u32 {
        self.cmp
    }

    /// The interrupt priority.
    pub closed spec fn priority_spec(&self) -> Priority {
        self.priority
    }

    /// The field bounds.
    pub closed spec fn wf(&self) -> bool {
        self.scale < 16 && self.counter < RTC_COUNTER_LIMIT
    }

    /// A running counter from zero, scale 0, compare value 0, priority 1.
    pub fn new() -> (r: RtcConf)
        ensures
            r.wf(),
            r.enalways_spec(),
            r.scale_spec() == 0,
            r.counter_spec() == 0,
            r.cmp_spec() == 0,
            r.priority_spec() == Priority::P1,
    {
        RtcConf { enalways: true, scale: 0, counter: 0, cmp: 0, priority: Priority::P1 }
    }

    /// Sets whether the counter runs.
    pub fn set_enalways(&mut self, en: bool) -> (r: &mut Self)
        requires
            old(self).wf(),
        ensures
            r.wf(),
            r.enalways_spec() == en,
            r.scale_spec() == old(self).scale_spec(),
            r.counter_spec() == old(self).counter_spec(),
            r.cmp_spec() == old(self).cmp_spec(),
            r.priority_spec() == old(self).priority_spec(),
            *final(self) == *final(r),
    {
        self.enalways = en;
        self
    }

    /// Sets the scale; the field is four bits wide.
    pub fn set_scale(&mut self, scale: u8) -> (r: &mut Self)
        requires
            old(self).wf(),
            scale < 16,
        ensures
            r.wf(),
            r.enalways_spec() == old(self).enalways_spec(),
            r.scale_spec() == scale,
            r.counter_spec() == old(self).counter_spec(),
            r.cmp_spec() == old(self).cmp_spec(),
            r.priority_spec() == old(self).priority_spec(),
            *final(self) == *final(r),
    {
        self.scale = scale;
        self
    }

    /// Sets the initial counter value.
    pub fn set_counter(&mut self, counter: u64) -> (r: &mut Self)
        requires
            old(self).wf(),
            counter < RTC_COUNTER_LIMIT,
        ensures
            r.wf(),
            r.enalways_spec() == old(self).enalways_spec(),
            r.scale_spec() == old(self).scale_spec(),
            r.counter_spec() == counter,
            r.cmp_spec() == old(self).cmp_spec(),
            r.priority_spec() == old(self).priority_spec(),
            *final(self) == *final(r),
    {
        self.counter = counter;
        self
    }

    /// Sets the compare value.
    pub fn set_cmp(&mut self, cmp: u32) -> (r: &mut Self)
        requires
            old(self).wf(),
        ensures
            r.wf(),
            r.enalways_spec() == old(self).enalways_spec(),
            r.scale_spec() == old(self).scale_spec(),
            r.counter_spec() == old(self).counter_spec(),
            r.cmp_spec() == cmp,
            r.priority_spec() == old(self).priority_spec(),
            *final(self) == *final(r),
    {
        self.cmp = cmp;
        self
    }

    /// Sets the interrupt priority.
    pub fn set_priority(&mut self, prio: Priority) -> (r: &mut Self)
        requires
            old(self).wf(),
        ensures
            r.wf(),
            r.enalways_spec() == old(self).enalways_spec(),
            r.scale_spec() == old(self).scale_spec(),
            r.counter_spec() == old(self).counter_spec(),
            r.cmp_spec() == old(self).cmp_spec(),
            r.priority_spec() == prio,
            *final(self) == *final(r),
    {
        self.priority = prio;
        self
    }
}


/// Abstract state of the real-time clock.
pub struct RtcView {
    /// Whether the counter runs.
    pub enalways: bool,
    /// Shift applied to the counter before the compare.
    pub scale: u8,
    /// The 48-bit counter.
    pub counter: u64,
    /// The compare value.
    pub cmp: u32,
    /// The latched compare-pending flag.
    pub cmpip: bool,
}

/// Register image of the real-time clock.
pub struct Rtc {
    enalways: bool,
    scale: u8,
    cmpip: bool,
    rtchi: u32,
    rtclo: u32,
    rtccmp: u32,
}

impl View for Rtc {
    type V = RtcView;

    closed spec fn view(&self) -> RtcView {
        RtcView {
            enalways: self.enalways,
            scale: self.scale,
            counter: (self.rtchi as int * 0x1_0000_0000 + self.rtclo as int) as u64,
            cmp: self.rtccmp,
            cmpip: self.cmpip,
        }
    }
}

/// State after the counter is written with `counter` (reduced to 48 bits):
/// the compare-pending flag is evaluated afresh.
pub open spec fn with_counter(v: RtcView, counter: u64) -> RtcView {
    let c = (counter % RTC_COUNTER_MODULUS) as u64;
    RtcView { counter: c, cmpip: scaled(c, v.scale) >= v.cmp, ..v }
}

/// State after the compare register is written with `cmp`: the
/// compare-pending flag is evaluated afresh.
pub open spec fn with_cmp(v: RtcView, cmp: u32) -> RtcView {
    RtcView { cmp, cmpip: scaled(v.counter, v.scale) >= cmp, ..v }
}

impl Rtc {
    /// The register fields hold what the hardware holds.
    pub closed spec fn wf(&self) -> bool {
        self.scale < 16 && self.rtchi < 0x1_0000
    }

    /// The clock as it comes out of reset: stopped at zero, scale 0,
    /// compare value 0.
    pub fn new() -> (r: Rtc)
        ensures
            r.wf(),
            r@ == (RtcView { enalways: false, scale: 0, counter: 0, cmp: 0, cmpip: true }),
    {
        Rtc { enalways: false, scale: 0, cmpip: true, rtchi: 0, rtclo: 0, rtccmp: 0 }
    }

    /// The scaled counter.
    fn rtcs(&self) -> (r: u32)
        requires
            self.wf(),
        ensures
            r == scaled(self@.counter, self@.scale),
    {
        let counter = self.get_counter();
        (counter >> (self.scale as u64)) as u32
    }

    /// Writes the counter, high half first; the hardware keeps 48 bits.
    fn write_counter(&mut self, counter: u64)
        requires
            old(self).wf(),
        ensures
            final(self).wf(),
            final(self)@ == with_counter(old(self)@, counter),
    {
        let c = counter % RTC_COUNTER_MODULUS;
        self.rtchi = (c >> 32u64) as u32;
        self.rtclo = c as u32;
        assert(c < 0x1_0000_0000_0000 ==> (c >> 32u64) < 0x1_0000 && ((c >> 32u64) as u32 as int
            * 0x1_0000_0000 + c as u32 as int) as u64 == c) by (bit_vector);
        self.cmpip = self.rtcs() >= self.rtccmp;
    }

    /// Writes the compare register.
    fn write_cmp(&mut self, cmp: u32)
        requires
            old(self).wf(),
        ensures
            final(self).wf(),
            final(self)@ == with_cmp(old(self)@, cmp),
    {
        self.rtccmp = cmp;
        self.cmpip = self.rtcs() >= cmp;
    }

    /// The counter.
    pub fn get_counter(&self) -> (r: u64)
        requires
            self.wf(),
        ensures
            r == self@.counter,
    {
        let (hi, lo) = (self.rtchi, self.rtclo);
        assert(((hi as u64) << 32u64) | (lo as u64) == (hi as int * 0x1_0000_0000 + lo as int) as u64)
            by (bit_vector)
            requires
                hi < 0x1_0000,
        ;
        ((hi as u64) << 32u64) | (lo as u64)
    }

    /// The scale.
    pub fn get_scale(&self) -> (r: u8)
        ensures
            r == self@.scale,
    {
        self.scale
    }

    /// Whether the counter runs.
    pub fn is_running(&self) -> (r: bool)
        ensures
            r == self@.enalways,
    {
        self.enalways
    }

    /// The compare value of the current timeout.
    pub fn get_timeout(&self) -> (r: u32)
        ensures
            r == self@.cmp,
    {
        self.rtccmp
    }

    /// Stops the counter; a latched compare-pending flag stays.
    pub fn pause(&mut self)
        requires
            old(self).wf(),
        ensures
            final(self).wf(),
            final(self)@ == (RtcView { enalways: false, ..old(self)@ }),
    {
        self.enalways = false;
    }

    /// Lets the counter run on from where it stopped.
    pub fn resume(&mut self)
        requires
            old(self).wf(),
        ensures
            final(self).wf(),
            final(self)@ == (RtcView { enalways: true, ..old(self)@ }),
    {
        self.enalways = true;
    }

    /// Resets the counter to zero, which clears a latched compare match,
    /// and lets it run.
    pub fn restart(&mut self)
        requires
            old(self).wf(),
        ensures
            final(self).wf(),
            final(self)@ == (RtcView { enalways: true, ..with_counter(old(self)@, 0) }),
    {
        self.write_counter(0);
        self.enalways = true;
    }

    /// Arms a timeout of `timeout` scaled ticks: stops the counter, writes
    /// the compare value, and restarts the counter from zero.
    pub fn set_timeout(&mut self, timeout: u32)
        requires
            old(self).wf(),
        ensures
            final(self).wf(),
            final(self)@ == (RtcView {
                enalways: true,
                ..with_counter(with_cmp(old(self)@, timeout), 0)
            }),
    {
        self.pause();
        self.write_cmp(timeout);
        self.restart();
    }

    /// `Ok` once the compare-pending flag is set.
    pub fn wait(&self) -> (r: Result<(), WouldBlock>)
        ensures
            r is Ok <==> self@.cmpip,
    {
        if self.cmpip {
            Ok(())
        } else {
            Err(WouldBlock)
        }
    }

    /// The hardware advances a running counter by `ticks` (modulo 2^48);
    /// a compare match latches the compare-pending flag.
    pub fn advance(&mut self, ticks: u64)
        requires
            old(self).wf(),
        ensures
            final(self).wf(),
            final(self)@ == (if old(self)@.enalways {
                let c = ((old(self)@.counter as int + ticks as int) % RTC_COUNTER_MODULUS as int) as u64;
                RtcView {
                    counter: c,
                    cmpip: old(self)@.cmpip || scaled(c, old(self)@.scale) >= old(self)@.cmp,
                    ..old(self)@
                }
            } else {
                old(self)@
            }),
    {
        if self.enalways {
            let was = self.cmpip;
            let now = self.get_counter();
            let next = (now % RTC_COUNTER_MODULUS + ticks % RTC_COUNTER_MODULUS) % RTC_COUNTER_MODULUS;
            proof {
                vstd::arithmetic::div_mod::lemma_add_mod_noop(now as int, ticks as int, RTC_COUNTER_MODULUS as int);
            }
            self.write_counter(next);
            self.cmpip = self.cmpip || was;
        }
    }
}

impl RtcConf {
    /// Writes this configuration to the clock.
    pub fn end(&self, rtc: &mut Rtc)
        requires
            old(rtc).wf(),
            self.wf(),
        ensures
            final(rtc).wf(),
            final(rtc)@ == with_cmp(
                with_counter(
                    RtcView { enalways: self.enalways_spec(), scale: self.scale_spec(), ..old(rtc)@ },
                    self.counter_spec(),
                ),
                self.cmp_spec(),
            ),
    {
        rtc.enalways = self.enalways;
        rtc.scale = self.scale;
        rtc.write_counter(self.counter);
        rtc.write_cmp(self.cmp);
    }
}

} // verus!
