//! Platform-level interrupt controller: priority arbitration among the
//! external interrupt sources and the claim / complete handshake.

use vstd::prelude::*;
use crate::bits::{bit_of, lemma_bit_ops};

verus! {

/// Number of interrupt source identities, the reserved identity 0 included.
pub const NUM_SOURCES: u32 = 53;

/// Number of 32-bit words in each per-source bitset.
pub const NUM_WORDS: usize = 2;

/// The identity that `claim` returns when no source qualifies.
pub const NO_SOURCE: u32 = 0;

/// A real interrupt source: identity 0 is reserved for "no interrupt".
pub open spec fn is_source(s: int) -> bool {
    0 < s < NUM_SOURCES
}

/// Priority of an interrupt source, or the threshold of the controller.
#[derive(Clone, Copy, Debug, PartialEq, Eq, Structural)]
pub enum Priority {
    P0,
    P1,
    P2,
    P3,
    P4,
    P5,
    P6,
    P7,
}

impl Priority {
    /// The numeric level of a priority.
    pub open spec fn level(self) -> u32 {
        match self {
            Priority::P0 => 0,
            Priority::P1 => 1,
            Priority::P2 => 2,
            Priority::P3 => 3,
            Priority::P4 => 4,
            Priority::P5 => 5,
            Priority::P6 => 6,
            Priority::P7 => 7,
        }
    }

    /// Takes the value of a priority or threshold register and returns the
    /// priority it holds. The field is three bits wide.
    pub fn from(prio: u32) -> (r: Priority)
        requires
            prio < 8,
        ensures
            r.level() == prio,
    {
        match prio {
            0 => Priority::P0,
            1 => Priority::P1,
            2 => Priority::P2,
            3 => Priority::P3,
            4 => Priority::P4,
            5 => Priority::P5,
            6 => Priority::P6,
            _ => Priority::P7,
        }
    }

    /// The numeric level, as written to a priority or threshold register.
    pub fn value(self) -> (r: u32)
        ensures
            r == self.level(),
            r < 8,
    {
        match self {
            Priority::P0 => 0,
            Priority::P1 => 1,
            Priority::P2 => 2,
            Priority::P3 => 3,
            Priority::P4 => 4,
            Priority::P5 => 5,
            Priority::P6 => 6,
            Priority::P7 => 7,
        }
    }
}

impl From<Priority> for u32 {
    fn from(p: Priority) -> (r: u32) {
        p.value()
    }
}

impl vstd::std_specs::convert::FromSpecImpl<Priority> for u32 {
    open spec fn obeys_from_spec() -> bool {
        true
    }

    open spec fn from_spec(p: Priority) -> u32 {
        p.level()
    }
}

/// Register offset and mask of one source's bit in a per-source bitset.
pub struct Loc {
    /// Index of the 32-bit word.
    pub offset: usize,
    /// Position of the bit within the word.
    pub bit: u32,
    /// The mask `1 << bit`.
    pub mask: u32,
}

impl Loc {
    /// The offset and bit agree with the mask.
    pub open spec fn wf(&self) -> bool {
        self.bit < 32 && self.mask == 1u32 << self.bit
    }

    /// The location of source `nr`: word `nr / 32`, bit `nr % 32`.
    pub fn from(nr: u32) -> (r: Loc)
        ensures
            r.wf(),
            r.offset == nr / 32,
            r.bit == nr % 32,
    {
        let bit: u32 = nr & 31;
        assert(nr & 31 == nr % 32) by (bit_vector);
        assert(nr >> 5 == nr / 32) by (bit_vector);
        Loc { offset: (nr >> 5) as usize, bit, mask: 1u32 << bit }
    }

    /// Whether the bit of this location is set in `bits`.
    pub fn is_set(&self, bits: u32) -> (r: bool)
        requires
            self.wf(),
        ensures
            r == bit_of(bits, self.bit),
    {
        proof {
            lemma_bit_ops(bits, self.bit, self.bit);
        }
        bits & self.mask == self.mask
    }

    /// `bits` with the bit of this location set.
    pub fn set_in(&self, bits: u32) -> (r: u32)
        requires
            self.wf(),
        ensures
            forall|i: u32| i < 32 ==> #[trigger] bit_of(r, i) == (i == self.bit || bit_of(bits, i)),
    {
        proof {
            assert forall|i: u32| i < 32 implies #[trigger] bit_of(bits | self.mask, i) == (i
                == self.bit || bit_of(bits, i)) by {
                lemma_bit_ops(bits, self.bit, i);
            }
        }
        bits | self.mask
    }

    /// `bits` with the bit of this location cleared.
    pub fn clear_in(&self, bits: u32) -> (r: u32)
        requires
            self.wf(),
        ensures
            forall|i: u32| i < 32 ==> #[trigger] bit_of(r, i) == (i != self.bit && bit_of(bits, i)),
    {
        proof {
            assert forall|i: u32| i < 32 implies #[trigger] bit_of(bits & !self.mask, i) == (i
                != self.bit && bit_of(bits, i)) by {
                lemma_bit_ops(bits, self.bit, i);
            }
        }
        bits & !self.mask
    }
}


/// The sources whose bit is set in a per-source bitset.
pub open spec fn word_set(words: Seq<u32>) -> Set<int> {
    Set::new(|s: int| is_source(s) && bit_of(words[s / 32], (s % 32) as u32))
}

/// Abstract state of the interrupt controller.
pub struct PlicView {
    /// Sources whose enable bit is set.
    pub enabled: Set<int>,
    /// Sources with a request waiting to be claimed.
    pub pending: Set<int>,
    /// Sources claimed and not yet completed.
    pub claimed: Set<int>,
    /// Claimed sources that asserted again while being serviced.
    pub deferred: Set<int>,
    /// Priority of each source identity.
    pub priority: Seq<int>,
    /// Sources at or below this priority are never claimed.
    pub threshold: int,
    /// The core's machine-external interrupt enable.
    pub mext: bool,
}

impl PlicView {
    /// The consistency every reachable state keeps.
    pub open spec fn valid(self) -> bool {
        &&& self.priority.len() == NUM_SOURCES
        &&& forall|s: int| 0 <= s < NUM_SOURCES ==> 0 <= #[trigger] self.priority[s] < 8
        &&& 0 <= self.threshold < 8
        &&& forall|s: int| #[trigger] self.enabled.contains(s) ==> is_source(s)
        &&& forall|s: int| #[trigger] self.pending.contains(s) ==> is_source(s)
        &&& forall|s: int| #[trigger] self.claimed.contains(s) ==> is_source(s)
        &&& forall|s: int| #[trigger] self.pending.contains(s) ==> !self.claimed.contains(s)
        &&& forall|s: int| #[trigger] self.deferred.contains(s) ==> self.claimed.contains(s)
    }

    /// Pending, enabled, and above the threshold: `s` may be claimed.
    pub open spec fn eligible(self, s: int) -> bool {
        &&& is_source(s)
        &&& self.pending.contains(s)
        &&& self.enabled.contains(s)
        &&& self.priority[s] > self.threshold
    }

    /// Source `a` wins over source `b`: a higher priority, or the same
    /// priority and a lower identity.
    pub open spec fn outranks(self, a: int, b: int) -> bool {
        self.priority[a] > self.priority[b] || (self.priority[a] == self.priority[b] && a < b)
    }

    /// `s` is the source that a claim returns.
    pub open spec fn is_winner(self, s: int) -> bool {
        &&& self.eligible(s)
        &&& forall|t: int| #[trigger] self.eligible(t) && t != s ==> self.outranks(s, t)
    }

    /// No source may be claimed.
    pub open spec fn none_eligible(self) -> bool {
        forall|t: int| !#[trigger] self.eligible(t)
    }

    /// State after `s` has been claimed.
    pub open spec fn after_claim(self, s: int) -> PlicView {
        PlicView { pending: self.pending.remove(s), claimed: self.claimed.insert(s), ..self }
    }

    /// State after the claimed source `s` has been completed: a request
    /// that arrived meanwhile becomes pending.
    pub open spec fn after_complete(self, s: int) -> PlicView {
        if self.deferred.contains(s) {
            PlicView {
                claimed: self.claimed.remove(s),
                deferred: self.deferred.remove(s),
                pending: self.pending.insert(s),
                ..self
            }
        } else {
            PlicView { claimed: self.claimed.remove(s), ..self }
        }
    }

    /// State after source `s` asserted its interrupt line.
    pub open spec fn after_raise(self, s: int) -> PlicView {
        if self.claimed.contains(s) {
            PlicView { deferred: self.deferred.insert(s), ..self }
        } else {
            PlicView { pending: self.pending.insert(s), ..self }
        }
    }

    /// `r` is what a claim from this state returns and `next` the state
    /// it leaves.
    pub open spec fn claims(self, r: int, next: PlicView) -> bool {
        &&& (r == NO_SOURCE <==> self.none_eligible())
        &&& r != NO_SOURCE ==> self.is_winner(r) && next == self.after_claim(r)
        &&& r == NO_SOURCE ==> next == self
    }

    /// A claim from this state returns `s`, and `next` is the state once
    /// that source, if there is one, has been served and completed.
    pub open spec fn serves(self, s: int, next: PlicView) -> bool {
        if s == NO_SOURCE {
            self.none_eligible() && next == self
        } else {
            self.is_winner(s) && next == self.after_claim(s).after_complete(s)
        }
    }

    /// State after initialisation: nothing enabled, the lowest threshold,
    /// external interrupts enabled at the core.
    pub open spec fn after_init(self) -> PlicView {
        PlicView { enabled: Set::empty(), threshold: 0, mext: true, ..self }
    }
}

/// Register image of the interrupt controller, for one hart context.
pub struct Plic {
    priority: Vec<u32>,
    pending: Vec<u32>,
    enable: Vec<u32>,
    claimed: Vec<u32>,
    deferred: Vec<u32>,
    threshold: u32,
    mext: bool,
}

impl View for Plic {
    type V = PlicView;

    closed spec fn view(&self) -> PlicView {
        PlicView {
            enabled: word_set(self.enable@),
            pending: word_set(self.pending@),
            claimed: word_set(self.claimed@),
            deferred: word_set(self.deferred@),
            priority: self.priority@.map_values(|p: u32| p as int),
            threshold: self.threshold as int,
            mext: self.mext,
        }
    }
}

/// Writes the bit of source `s` in a per-source bitset.
fn write_bit(words: &mut Vec<u32>, s: u32, value: bool)
    requires
        old(words)@.len() == NUM_WORDS,
        is_source(s as int),
    ensures
        final(words)@.len() == NUM_WORDS,
        word_set(final(words)@) == (if value {
            word_set(old(words)@).insert(s as int)
        } else {
            word_set(old(words)@).remove(s as int)
        }),
{
    let loc = Loc::from(s);
    let w = words[loc.offset];
    let nw = if value {
        loc.set_in(w)
    } else {
        loc.clear_in(w)
    };
    words.set(loc.offset, nw);
    proof {
        let before = word_set(old(words)@);
        let target = if value {
            before.insert(s as int)
        } else {
            before.remove(s as int)
        };
        assert forall|t: int| word_set(words@).contains(t) == target.contains(t) by {
            if is_source(t) {
                let i = (t % 32) as u32;
                if t / 32 == s / 32 {
                    // the bit of `t` in the written word, as `set_in` / `clear_in` state it
                    assert(i < 32 && bit_of(nw, i) == if i == loc.bit {
                        value
                    } else {
                        bit_of(w, i)
                    });
                    assert((t == s as int) == (i == loc.bit));
                } else {
                    assert(words@[t / 32] == old(words)@[t / 32]);
                }
            }
        }
        assert(word_set(words@) =~= target);
    }
}


/// A bitset with no bit set holds no source.
proof fn lemma_zero_words(words: Seq<u32>)
    requires
        words.len() == NUM_WORDS,
        forall|k: int| 0 <= k < NUM_WORDS ==> words[k] == 0,
    ensures
        word_set(words) == Set::<int>::empty(),
{
    assert forall|t: int| !word_set(words).contains(t) by {
        if is_source(t) {
            lemma_bit_ops(0, 0, (t % 32) as u32);
        }
    }
    assert(word_set(words) =~= Set::<int>::empty());
}

impl Plic {
    /// The register image is consistent and its view valid.
    pub open spec fn wf(&self) -> bool {
        self.regs_wf() && self@.valid()
    }

    /// The registers have their sizes and field widths.
    pub closed spec fn regs_wf(&self) -> bool {
        &&& self.priority@.len() == NUM_SOURCES
        &&& self.pending@.len() == NUM_WORDS
        &&& self.enable@.len() == NUM_WORDS
        &&& self.claimed@.len() == NUM_WORDS
        &&& self.deferred@.len() == NUM_WORDS
        &&& forall|s: int| 0 <= s < NUM_SOURCES ==> #[trigger] self.priority@[s] < 8
        &&& self.threshold < 8
        &&& self@.valid()
    }

    /// The controller as it comes out of reset: every priority, enable and
    /// pending bit zero, the threshold zero, external interrupts masked at
    /// the core.
    pub fn new() -> (r: Plic)
        ensures
            r.wf(),
            r@.enabled == Set::<int>::empty(),
            r@.pending == Set::<int>::empty(),
            r@.claimed == Set::<int>::empty(),
            r@.deferred == Set::<int>::empty(),
            forall|s: int| 0 <= s < NUM_SOURCES ==> #[trigger] r@.priority[s] == 0,
            r@.threshold == 0,
            !r@.mext,
    {
        let mut priority: Vec<u32> = Vec::new();
        let mut i: u32 = 0;
        while i < NUM_SOURCES
            invariant
                i <= NUM_SOURCES,
                priority@.len() == i,
                forall|s: int| 0 <= s < i ==> #[trigger] priority@[s] == 0,
            decreases NUM_SOURCES - i,
        {
            priority.push(0);
            i = i + 1;
        }
        let r = Plic {
            priority,
            pending: vec![0, 0],
            enable: vec![0, 0],
            claimed: vec![0, 0],
            deferred: vec![0, 0],
            threshold: 0,
            mext: false,
        };
        proof {
            lemma_zero_words(r.pending@);
            lemma_zero_words(r.enable@);
            lemma_zero_words(r.claimed@);
            lemma_zero_words(r.deferred@);
        }
        r
    }

    /// Initializes the controller: clears every enable bit, sets the
    /// threshold to the lowest priority and enables external interrupts at
    /// the core.
    pub fn init(&mut self)
        requires
            old(self).wf(),
        ensures
            final(self).wf(),
            final(self)@ == old(self)@.after_init(),
    {
        let mut k: usize = 0;
        while k < self.enable.len()
            invariant
                self.enable@.len() == NUM_WORDS,
                k <= NUM_WORDS,
                forall|j: int| 0 <= j < k ==> #[trigger] self.enable@[j] == 0,
                self.priority == old(self).priority,
                self.pending == old(self).pending,
                self.claimed == old(self).claimed,
                self.deferred == old(self).deferred,
                self.threshold == old(self).threshold,
                self.mext == old(self).mext,
            decreases NUM_WORDS - k,
        {
            self.enable.set(k, 0);
            k = k + 1;
        }
        proof {
            lemma_zero_words(self.enable@);
            assert(self@.pending == old(self)@.pending);
            assert(self@.claimed == old(self)@.claimed);
            assert(self@.deferred == old(self)@.deferred);
            assert(self@.priority == old(self)@.priority);
        }
        self.set_threshold(Priority::P0);
        self.enable_mext();
        assert(self@ =~= old(self)@.after_init());
    }

    /// Enables machine-external interrupts at the core.
    pub fn enable_mext(&mut self)
        requires
            old(self).wf(),
        ensures
            final(self).wf(),
            final(self)@ == (PlicView { mext: true, ..old(self)@ }),
    {
        self.mext = true;
    }

    /// Disables machine-external interrupts at the core.
    pub fn disable_mext(&mut self)
        requires
            old(self).wf(),
        ensures
            final(self).wf(),
            final(self)@ == (PlicView { mext: false, ..old(self)@ }),
    {
        self.mext = false;
    }

    /// Whether machine-external interrupts are enabled at the core.
    pub fn is_mext_enabled(&self) -> (r: bool)
        ensures
            r == self@.mext,
    {
        self.mext
    }

    /// Whether source `s` is pending.
    pub fn is_pending(&self, s: u32) -> (r: bool)
        requires
            self.wf(),
            is_source(s as int),
        ensures
            r == self@.pending.contains(s as int),
    {
        let loc = Loc::from(s);
        loc.is_set(self.pending[loc.offset])
    }

    /// Whether source `s` is enabled.
    pub fn is_enabled(&self, s: u32) -> (r: bool)
        requires
            self.wf(),
            is_source(s as int),
        ensures
            r == self@.enabled.contains(s as int),
    {
        let loc = Loc::from(s);
        loc.is_set(self.enable[loc.offset])
    }

    /// Enables source `s`; its pending state is untouched.
    pub fn enable(&mut self, s: u32)
        requires
            old(self).wf(),
            is_source(s as int),
        ensures
            final(self).wf(),
            final(self)@ == (PlicView { enabled: old(self)@.enabled.insert(s as int), ..old(self)@ }),
    {
        write_bit(&mut self.enable, s, true);
    }

    /// Disables source `s`; its pending state is untouched.
    pub fn disable(&mut self, s: u32)
        requires
            old(self).wf(),
            is_source(s as int),
        ensures
            final(self).wf(),
            final(self)@ == (PlicView { enabled: old(self)@.enabled.remove(s as int), ..old(self)@ }),
    {
        write_bit(&mut self.enable, s, false);
    }

    /// The priority of source `s`.
    pub fn get_priority(&self, s: u32) -> (r: Priority)
        requires
            self.wf(),
            is_source(s as int),
        ensures
            r.level() == self@.priority[s as int],
    {
        Priority::from(self.priority[s as usize])
    }

    /// Sets the priority of source `s`.
    pub fn set_priority(&mut self, s: u32, prio: Priority)
        requires
            old(self).wf(),
            is_source(s as int),
        ensures
            final(self).wf(),
            final(self)@ == (PlicView {
                priority: old(self)@.priority.update(s as int, prio.level() as int),
                ..old(self)@
            }),
    {
        self.priority.set(s as usize, prio.value());
        assert(self@.priority =~= old(self)@.priority.update(s as int, prio.level() as int));
    }

    /// The threshold priority.
    pub fn get_threshold(&self) -> (r: Priority)
        requires
            self.wf(),
        ensures
            r.level() == self@.threshold,
    {
        Priority::from(self.threshold)
    }

    /// Sets the threshold priority: sources at or below it are not claimed.
    pub fn set_threshold(&mut self, prio: Priority)
        requires
            old(self).wf(),
        ensures
            final(self).wf(),
            final(self)@ == (PlicView { threshold: prio.level() as int, ..old(self)@ }),
    {
        self.threshold = prio.value();
    }

    /// The source a claim would return, or `NO_SOURCE`.
    fn arbitrate(&self) -> (r: u32)
        requires
            self.wf(),
        ensures
            r == NO_SOURCE <==> self@.none_eligible(),
            r != NO_SOURCE ==> self@.is_winner(r as int),
    {
        let mut best: u32 = NO_SOURCE;
        let mut best_prio: u32 = 0;
        let mut s: u32 = 1;
        while s < NUM_SOURCES
            invariant
                self.wf(),
                1 <= s <= NUM_SOURCES,
                best < s,
                best == NO_SOURCE ==> forall|t: int| 1 <= t < s ==> !#[trigger] self@.eligible(t),
                best != NO_SOURCE ==> {
                    &&& self@.eligible(best as int)
                    &&& best_prio == self@.priority[best as int]
                    &&& forall|t: int|
                        1 <= t < s && t != best && #[trigger] self@.eligible(t) ==> self@.outranks(
                            best as int,
                            t,
                        )
                },
            decreases NUM_SOURCES - s,
        {
            let prio = self.priority[s as usize];
            if self.is_pending(s) && self.is_enabled(s) && prio > self.threshold {
                if best == NO_SOURCE || prio > best_prio {
                    best = s;
                    best_prio = prio;
                }
            }
            s = s + 1;
        }
        best
    }

    /// Claims the eligible source with the highest priority (the lowest
    /// identity among equals): its pending bit is cleared and it is in
    /// service until completed. Returns `NO_SOURCE`, and changes nothing,
    /// when no source is pending, enabled and above the threshold.
    pub fn claim(&mut self) -> (r: u32)
        requires
            old(self).wf(),
        ensures
            final(self).wf(),
            old(self)@.claims(r as int, final(self)@),
    {
        let r = self.arbitrate();
        if r != NO_SOURCE {
            write_bit(&mut self.pending, r, false);
            write_bit(&mut self.claimed, r, true);
            assert(self@ =~= old(self)@.after_claim(r as int));
        }
        r
    }

    /// Completes the service of the claimed source `s`. A request that `s`
    /// made while in service becomes pending.
    pub fn complete(&mut self, s: u32)
        requires
            old(self).wf(),
            is_source(s as int),
            old(self)@.claimed.contains(s as int),
        ensures
            final(self).wf(),
            final(self)@ == old(self)@.after_complete(s as int),
    {
        let loc = Loc::from(s);
        let again = loc.is_set(self.deferred[loc.offset]);
        write_bit(&mut self.claimed, s, false);
        if again {
            write_bit(&mut self.deferred, s, false);
            write_bit(&mut self.pending, s, true);
        }
        assert(self@ =~= old(self)@.after_complete(s as int));
    }

    /// Source `s` asserts its interrupt line. The request is pending, or,
    /// while `s` is in service, held until it is completed.
    pub fn raise(&mut self, s: u32)
        requires
            old(self).wf(),
            is_source(s as int),
        ensures
            final(self).wf(),
            final(self)@ == old(self)@.after_raise(s as int),
    {
        let loc = Loc::from(s);
        if loc.is_set(self.claimed[loc.offset]) {
            write_bit(&mut self.deferred, s, true);
        } else {
            write_bit(&mut self.pending, s, true);
        }
        assert(self@ =~= old(self)@.after_raise(s as int));
    }
}


/// A source that alone may be claimed is what a claim returns, and it is
/// no longer pending afterwards; while it is in service, a second claim
/// never returns it.
pub proof fn lemma_claim_exclusive(v0: PlicView, s: int, r1: int, v1: PlicView, r2: int, v2: PlicView)
    requires
        v0.valid(),
        v0.eligible(s),
        forall|t: int| t != s ==> !#[trigger] v0.eligible(t),
        v0.claims(r1, v1),
        v1.claims(r2, v2),
    ensures
        r1 == s,
        !v1.pending.contains(s),
        v1.claimed.contains(s),
        r2 != s,
{
}

/// A claim never returns a source that is in service.
pub proof fn lemma_claimed_not_reclaimed(v: PlicView, s: int, r: int, next: PlicView)
    requires
        v.valid(),
        v.claimed.contains(s),
        v.claims(r, next),
    ensures
        r != s,
        next.claimed.contains(s),
{
}

/// Of two eligible sources, the one with the lower priority is not claimed
/// first.
pub proof fn lemma_priority_order(v: PlicView, hi: int, lo: int, r: int, next: PlicView)
    requires
        v.valid(),
        v.eligible(hi),
        v.eligible(lo),
        v.priority[hi] > v.priority[lo],
        v.claims(r, next),
    ensures
        r != lo,
        r != NO_SOURCE,
{
}

/// A source at or below the threshold is never claimed; with the threshold
/// at or above the priority of every pending source, a claim returns
/// `NO_SOURCE`.
pub proof fn lemma_threshold_gates(v: PlicView, s: int, r: int, next: PlicView)
    requires
        v.valid(),
        is_source(s),
        v.claims(r, next),
    ensures
        v.priority[s] <= v.threshold ==> r != s,
        (forall|t: int| #[trigger] v.pending.contains(t) ==> v.priority[t] <= v.threshold) ==> r
            == NO_SOURCE,
{
}

/// Serving an external interrupt claims and completes the same source:
/// the sources in service are the same before and after.
pub proof fn lemma_serve_pairs_claim_and_complete(v: PlicView, s: int, next: PlicView)
    requires
        v.valid(),
        v.serves(s, next),
    ensures
        next.claimed == v.claimed,
{
    if s != NO_SOURCE {
        assert(next.claimed =~= v.claimed);
    }
}

/// Initialising twice leaves the same state as initialising once.
pub proof fn lemma_init_idempotent(v: PlicView)
    ensures
        v.after_init().after_init() == v.after_init(),
{
}

} // verus!
