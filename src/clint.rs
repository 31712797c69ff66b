//! Core-local interruptor: the 64-bit machine timer, its compare register
//! and the machine-timer interrupt, with the cycle and instruction
//! counters of the core.

use vstd::prelude::*;
use vstd::arithmetic::div_mod::lemma_fundamental_div_mod;
use vstd::arithmetic::div_mod::lemma_fundamental_div_mod_converse_div;

verus! {

/// Frequency of the always-on clock that drives the machine timer.
pub const AONCLK_HZ: u32 = 32768;

/// `2^32`, the weight of the high word of a 64-bit counter.
pub open spec fn word_base() -> int {
    0x1_0000_0000
}

/// The 64-bit value whose high word is `hi` and whose low word is `lo`.
pub open spec fn join_spec(hi: u32, lo: u32) -> int {
    hi as int * word_base() + lo as int
}

/// High word of a 64-bit value.
pub fn hi_word(v: u64) -> (r: u32)
    ensures
        r as int == v as int / word_base(),
{
    assert((v >> 32u64) as u32 as int == v as int / 0x1_0000_0000) by (bit_vector);
    (v >> 32u64) as u32
}

/// Low word of a 64-bit value.
pub fn lo_word(v: u64) -> (r: u32)
    ensures
        r as int == v as int % word_base(),
{
    assert(v as u32 as int == v as int % 0x1_0000_0000) by (bit_vector);
    v as u32
}

/// The 64-bit value made of a high and a low word.
pub fn join_words(hi: u32, lo: u32) -> (r: u64)
    ensures
        r as int == join_spec(hi, lo),
{
    assert((((hi as u64) << 32u64) | (lo as u64)) as int == hi as int * 0x1_0000_0000 + lo as int)
        by (bit_vector);
    ((hi as u64) << 32u64) | (lo as u64)
}

/// One round of the coherent read of a counter split over two registers
/// that the hardware increments: the high word, then the low word, then
/// the high word again. The value is consistent only when both reads of
/// the high word agree; `None` asks for another round.
pub fn read_coherent(hi: u32, lo: u32, hi_again: u32) -> (r: Option<u64>)
    ensures
        r == read_coherent_spec(hi, lo, hi_again),
{
    if hi == hi_again {
        Some(join_words(hi, lo))
    } else {
        None
    }
}

/// Writing a value as its two words and reading them back gives the value.
pub proof fn lemma_tick_round_trip(v: u64)
    ensures
        join_spec((v as int / word_base()) as u32, (v as int % word_base()) as u32) == v,
        read_coherent_spec(
            (v as int / word_base()) as u32,
            (v as int % word_base()) as u32,
            (v as int / word_base()) as u32,
        ) == Some(v),
{
    lemma_fundamental_div_mod(v as int, word_base());
}

/// What `read_coherent` returns.
pub open spec fn read_coherent_spec(hi: u32, lo: u32, hi_again: u32) -> Option<u64> {
    if hi == hi_again {
        Some(join_spec(hi, lo) as u64)
    } else {
        None
    }
}

/// Whether at least `min_ticks` have passed from `start` to `now`.
pub fn min_ticks_elapsed(start: u64, now: u64, min_ticks: u64) -> (r: bool)
    ensures
        r == (now as int >= start as int + min_ticks as int),
{
    now >= start && now - start >= min_ticks
}

/// The core clock frequency in Hz, from the core cycles and the always-on
/// clock ticks counted over the same interval.
pub fn coreclk_hz(delta_cycle: u32, delta_time: u32) -> (r: u32)
    requires
        delta_time > 0,
        delta_cycle as int * AONCLK_HZ as int / delta_time as int <= u32::MAX,
    ensures
        r as int == delta_cycle as int * AONCLK_HZ as int / delta_time as int,
{
    let c = delta_cycle as u64;
    let d = delta_time as u64;
    let k = AONCLK_HZ as u64;
    let q = c / d;
    let m = c % d;
    proof {
        let (ci, di, ki) = (c as int, d as int, k as int);
        lemma_fundamental_div_mod(ci, di);
        lemma_fundamental_div_mod(m as int * ki, di);
        let q2 = (m as int * ki) / di;
        let m2 = (m as int * ki) % di;
        assert(ci * ki == (q as int * ki + q2) * di + m2) by (nonlinear_arith)
            requires
                ci == di * q as int + m as int,
                m as int * ki == di * q2 + m2,
        ;
        lemma_fundamental_div_mod_converse_div(ci * ki, di, q as int * ki + q2, m2);
        assert(m as int * ki <= (di - 1) * ki) by (nonlinear_arith)
            requires
                0 <= m < di,
                ki > 0,
        ;
        assert(q as int * ki <= ci * ki / di);
    }
    let hz = q * k + (m * k) / d;
    hz as u32
}


/// A timer that is not ready yet.
#[derive(Clone, Copy, Debug, PartialEq, Eq, Structural)]
pub struct WouldBlock;

/// Abstract state of the core-local interruptor.
pub struct ClintView {
    /// The free-running machine timer.
    pub mtime: int,
    /// The machine-timer compare value.
    pub mtimecmp: int,
    /// The core cycle counter.
    pub mcycle: int,
    /// The retired-instruction counter.
    pub minstret: int,
    /// The machine-timer interrupt enable.
    pub mtie: bool,
}

impl ClintView {
    /// The machine-timer interrupt is pending: the timer has reached the
    /// compare value.
    pub open spec fn mtimer_pending(self) -> bool {
        self.mtime >= self.mtimecmp
    }
}

/// Register image of the core-local interruptor and the core counters.
/// Each 64-bit counter is held as its two 32-bit halves, as the hardware
/// exposes it.
pub struct Clint {
    mtime: u32,
    mtimeh: u32,
    mtimecmp: u32,
    mtimecmph: u32,
    mcycle: u32,
    mcycleh: u32,
    minstret: u32,
    minstreth: u32,
    mtie: bool,
}

impl View for Clint {
    type V = ClintView;

    closed spec fn view(&self) -> ClintView {
        ClintView {
            mtime: join_spec(self.mtimeh, self.mtime),
            mtimecmp: join_spec(self.mtimecmph, self.mtimecmp),
            mcycle: join_spec(self.mcycleh, self.mcycle),
            minstret: join_spec(self.minstreth, self.minstret),
            mtie: self.mtie,
        }
    }
}

impl Clint {
    /// The block as it comes out of reset: every counter and compare value
    /// zero, the timer interrupt disabled.
    pub fn new() -> (r: Clint)
        ensures
            r@ == (ClintView { mtime: 0, mtimecmp: 0, mcycle: 0, minstret: 0, mtie: false }),
    {
        Clint {
            mtime: 0,
            mtimeh: 0,
            mtimecmp: 0,
            mtimecmph: 0,
            mcycle: 0,
            mcycleh: 0,
            minstret: 0,
            minstreth: 0,
            mtie: false,
        }
    }

    /// Reads the machine timer.
    pub fn get_mtime(&self) -> (r: u64)
        ensures
            r == self@.mtime,
    {
        join_words(self.mtimeh, self.mtime)
    }

    /// Writes the machine timer, high half first.
    pub fn set_mtime(&mut self, time: u64)
        ensures
            final(self)@ == (ClintView { mtime: time as int, ..old(self)@ }),
    {
        self.mtimeh = hi_word(time);
        self.mtime = lo_word(time);
        proof {
            lemma_tick_round_trip(time);
        }
    }

    /// Reads the machine-timer compare value.
    pub fn get_mtimecmp(&self) -> (r: u64)
        ensures
            r == self@.mtimecmp,
    {
        join_words(self.mtimecmph, self.mtimecmp)
    }

    /// Writes the machine-timer compare value, high half first.
    pub fn set_mtimecmp(&mut self, time: u64)
        ensures
            final(self)@ == (ClintView { mtimecmp: time as int, ..old(self)@ }),
    {
        self.mtimecmph = hi_word(time);
        self.mtimecmp = lo_word(time);
        proof {
            lemma_tick_round_trip(time);
        }
    }

    /// Reads the core cycle counter.
    pub fn get_mcycle(&self) -> (r: u64)
        ensures
            r == self@.mcycle,
    {
        join_words(self.mcycleh, self.mcycle)
    }

    /// Writes the core cycle counter, high half first.
    pub fn set_mcycle(&mut self, cycle: u64)
        ensures
            final(self)@ == (ClintView { mcycle: cycle as int, ..old(self)@ }),
    {
        self.mcycleh = hi_word(cycle);
        self.mcycle = lo_word(cycle);
        proof {
            lemma_tick_round_trip(cycle);
        }
    }

    /// Reads the retired-instruction counter.
    pub fn get_minstret(&self) -> (r: u64)
        ensures
            r == self@.minstret,
    {
        join_words(self.minstreth, self.minstret)
    }

    /// Writes the retired-instruction counter, high half first.
    pub fn set_minstret(&mut self, instret: u64)
        ensures
            final(self)@ == (ClintView { minstret: instret as int, ..old(self)@ }),
    {
        self.minstreth = hi_word(instret);
        self.minstret = lo_word(instret);
        proof {
            lemma_tick_round_trip(instret);
        }
    }

    /// Enables the machine-timer interrupt.
    pub fn enable_mtimer(&mut self)
        ensures
            final(self)@ == (ClintView { mtie: true, ..old(self)@ }),
    {
        self.mtie = true;
    }

    /// Disables the machine-timer interrupt. A match that has already
    /// happened stays pending.
    pub fn disable_mtimer(&mut self)
        ensures
            final(self)@ == (ClintView { mtie: false, ..old(self)@ }),
    {
        self.mtie = false;
    }

    /// Whether the machine-timer interrupt is enabled.
    pub fn is_mtimer_enabled(&self) -> (r: bool)
        ensures
            r == self@.mtie,
    {
        self.mtie
    }

    /// Whether the machine-timer interrupt is pending: the timer has
    /// reached the compare value.
    pub fn is_mtimer_pending(&self) -> (r: bool)
        ensures
            r == self@.mtimer_pending(),
    {
        self.get_mtime() >= self.get_mtimecmp()
    }

    /// The hardware advances the machine timer by `ticks`; the 64-bit
    /// counter wraps.
    pub fn advance(&mut self, ticks: u64)
        ensures
            final(self)@ == (ClintView {
                mtime: (old(self)@.mtime + ticks) % 0x1_0000_0000_0000_0000,
                ..old(self)@
            }),
    {
        let now = self.get_mtime();
        self.set_mtime(now.wrapping_add(ticks));
    }

    /// The compare value of the current timeout.
    pub fn get_timeout(&self) -> (r: u64)
        ensures
            r == self@.mtimecmp,
    {
        self.get_mtimecmp()
    }

    /// Stops the timeout from interrupting.
    pub fn pause(&mut self)
        ensures
            final(self)@ == (ClintView { mtie: false, ..old(self)@ }),
    {
        self.disable_mtimer();
    }

    /// Restarts the timer from zero with its interrupt enabled, as a handler
    /// does to acknowledge a fired timeout.
    pub fn restart(&mut self)
        ensures
            final(self)@ == (ClintView { mtime: 0, mtie: true, ..old(self)@ }),
    {
        self.set_mtime(0);
        self.enable_mtimer();
    }

    /// Arms a timeout of `timeout` ticks: the interrupt is disabled, the
    /// compare value written, the timer reset to zero, and the interrupt
    /// enabled again, so that no stale pairing of timer and compare value
    /// can fire.
    pub fn set_timeout(&mut self, timeout: u64)
        ensures
            final(self)@ == (ClintView { mtime: 0, mtimecmp: timeout as int, mtie: true, ..old(self)@ }),
    {
        self.disable_mtimer();
        self.set_mtimecmp(timeout);
        self.set_mtime(0);
        self.enable_mtimer();
    }

    /// `Ok` once the timeout has elapsed.
    pub fn wait(&self) -> (r: Result<(), WouldBlock>)
        ensures
            r is Ok <==> self@.mtimer_pending(),
    {
        if self.is_mtimer_pending() {
            Ok(())
        } else {
            Err(WouldBlock)
        }
    }
}

/// Writing the compare value `c`, then the timer with a value at or beyond
/// `c`, then enabling the interrupt leaves the machine-timer interrupt
/// pending, with no further write.
pub proof fn lemma_compare_match_pending(
    v0: ClintView,
    c: u64,
    v1: ClintView,
    t: u64,
    v2: ClintView,
    v3: ClintView,
)
    requires
        v1 == (ClintView { mtimecmp: c as int, ..v0 }),
        v2 == (ClintView { mtime: t as int, ..v1 }),
        v3 == (ClintView { mtie: true, ..v2 }),
        t >= c,
    ensures
        v3.mtimer_pending(),
        v3.mtie,
{
}

} // verus!
