//! The programmable interrupt controller: per-line enable, pending,
//! active and priority state.
//!
//! The controller's registers are banked 32 lines to a word: every
//! operation computes `bank = line / 32`, `bit = line % 32` and touches
//! exactly one word, plus one byte of the per-line priority table when a
//! priority is given. The operations are not internally synchronized;
//! callers racing with an interrupt handler on the same bank wrap the
//! calls in a critical section. A line id at or above [`LINES`] is a
//! caller contract violation, excluded by precondition rather than
//! checked at run time.

use vstd::prelude::*;

verus! {

/// Number of interrupt lines the controller addresses.
pub const LINES: u8 = 64;

/// Number of 32-line register banks.
pub const BANKS: usize = 2;

/// The controller's register state: one word per bank for each of the
/// enable, pending and active planes, and one priority byte per line.
/// The fields are the hardware-visible registers themselves.
pub struct Pfic {
    /// Interrupt-enable bits, 32 lines per word.
    pub enabled: Vec<u32>,
    /// Interrupt-pending bits, 32 lines per word.
    pub pending: Vec<u32>,
    /// Interrupt-active bits, set by the hardware while a handler runs.
    pub active: Vec<u32>,
    /// Per-line priority bytes.
    pub priorities: Vec<u8>,
}

/// The mathematical model of the controller: the same planes as
/// sequences of words and bytes.
#[verifier::ext_equal]
pub ghost struct PficView {
    pub enabled: Seq<u32>,
    pub pending: Seq<u32>,
    pub active: Seq<u32>,
    pub priorities: Seq<u8>,
}

/// Whether bit `bit` of `word` is set; `bit` must be below 32.
pub open spec fn bit_set(word: u32, bit: u32) -> bool {
    word & (1u32 << bit) != 0
}

impl PficView {
    /// The register planes have their full width: two banks of 32
    /// lines, and one priority byte per line.
    pub open spec fn wf(self) -> bool {
        &&& self.enabled.len() == BANKS
        &&& self.pending.len() == BANKS
        &&& self.active.len() == BANKS
        &&& self.priorities.len() == LINES
    }

    /// Whether `line` is enabled.
    pub open spec fn line_enabled(self, line: u8) -> bool {
        bit_set(self.enabled[line as int / 32], (line % 32) as u32)
    }

    /// Whether `line` is pending.
    pub open spec fn line_pending(self, line: u8) -> bool {
        bit_set(self.pending[line as int / 32], (line % 32) as u32)
    }

    /// Whether `line` is active.
    pub open spec fn line_active(self, line: u8) -> bool {
        bit_set(self.active[line as int / 32], (line % 32) as u32)
    }

    /// The priority byte of `line`.
    pub open spec fn line_priority(self, line: u8) -> u8 {
        self.priorities[line as int]
    }

    /// Enabling sets one bit of one enable word and, when a priority is
    /// given, one byte of the priority table.
    pub open spec fn enable(self, line: u8, priority: Option<u8>) -> PficView {
        let bank = line as int / 32;
        let mask = 1u32 << ((line % 32) as u32);
        let set = PficView { enabled: self.enabled.update(bank, self.enabled[bank] | mask), ..self };
        match priority {
            Some(p) => PficView {
                priorities: set.priorities.update(line as int, p),
                ..set
            },
            None => set,
        }
    }

    /// Disabling clears one bit of one enable word.
    pub open spec fn disable(self, line: u8) -> PficView {
        let bank = line as int / 32;
        let mask = 1u32 << ((line % 32) as u32);
        PficView { enabled: self.enabled.update(bank, self.enabled[bank] & !mask), ..self }
    }

    /// Pending sets one bit of one pending word.
    pub open spec fn pend(self, line: u8) -> PficView {
        let bank = line as int / 32;
        let mask = 1u32 << ((line % 32) as u32);
        PficView { pending: self.pending.update(bank, self.pending[bank] | mask), ..self }
    }

    /// Unpending clears one bit of one pending word.
    pub open spec fn unpend(self, line: u8) -> PficView {
        let bank = line as int / 32;
        let mask = 1u32 << ((line % 32) as u32);
        PficView { pending: self.pending.update(bank, self.pending[bank] & !mask), ..self }
    }
}

proof fn lemma_bit_or(w: u32, b: u32, j: u32)
    by (bit_vector)
    requires
        b < 32,
        j < 32,
    ensures
        ((w | (1u32 << b)) & (1u32 << j) != 0) <==> (j == b || w & (1u32 << j) != 0),
{
}

proof fn lemma_bit_clear(w: u32, b: u32, j: u32)
    by (bit_vector)
    requires
        b < 32,
        j < 32,
    ensures
        ((w & !(1u32 << b)) & (1u32 << j) != 0) <==> (j != b && w & (1u32 << j) != 0),
{
}

proof fn lemma_zero_word(j: u32)
    by (bit_vector)
    requires
        j < 32,
    ensures
        0u32 & (1u32 << j) == 0,
{
}

/// Two distinct lines differ in their bank or in their bit position.
proof fn lemma_line_split(a: u8, b: u8)
    requires
        a < LINES,
        b < LINES,
        a as int / 32 == b as int / 32,
        a % 32 == b % 32,
    ensures
        a == b,
{
    vstd::arithmetic::div_mod::lemma_fundamental_div_mod(a as int, 32);
    vstd::arithmetic::div_mod::lemma_fundamental_div_mod(b as int, 32);
}

/// Enabling a line makes exactly that line enabled and touches no other
/// plane: the enable/`is_enabled` round trip reads back `true`, and
/// after a following disable it reads back `false` again, with every
/// other line unchanged throughout.
pub proof fn lemma_enable_disable_round_trip(v: PficView, line: u8, priority: Option<u8>)
    requires
        v.wf(),
        line < LINES,
    ensures
        v.enable(line, priority).wf(),
        v.enable(line, priority).line_enabled(line),
        !v.enable(line, priority).disable(line).line_enabled(line),
        !v.disable(line).line_enabled(line),
        forall|l: u8|
            l < LINES && l != line ==> #[trigger] v.enable(line, priority).line_enabled(l)
                == v.line_enabled(l),
        forall|l: u8|
            l < LINES && l != line ==> #[trigger] v.disable(line).line_enabled(l)
                == v.line_enabled(l),
        forall|l: u8|
            l < LINES ==> #[trigger] v.enable(line, priority).line_pending(l) == v.line_pending(
                l,
            ) && v.enable(line, priority).line_active(l) == v.line_active(l),
{
    let b = (line % 32) as u32;
    assert forall|l: u8| #![all_triggers] l < LINES implies {
        &&& v.enable(line, priority).line_enabled(l) == (l == line || v.line_enabled(l))
        &&& v.enable(line, priority).line_pending(l) == v.line_pending(l)
        &&& v.enable(line, priority).line_active(l) == v.line_active(l)
        &&& v.disable(line).line_enabled(l) == (l != line && v.line_enabled(l))
        &&& v.enable(line, priority).disable(line).line_enabled(l) == (l != line
            && v.enable(line, priority).line_enabled(l))
    } by {
        let j = (l % 32) as u32;
        if l as int / 32 == line as int / 32 {
            lemma_bit_or(v.enabled[line as int / 32], b, j);
            lemma_bit_clear(v.enabled[line as int / 32], b, j);
            lemma_bit_clear(v.enable(line, priority).enabled[line as int / 32], b, j);
            if j == b {
                lemma_line_split(l, line);
            }
        }
    }
}

/// Pend/unpend round trip: pending a line makes exactly that line
/// pending, unpending clears exactly that line, and the enable and
/// active planes are untouched.
pub proof fn lemma_pend_unpend_round_trip(v: PficView, line: u8)
    requires
        v.wf(),
        line < LINES,
    ensures
        v.pend(line).wf(),
        v.pend(line).line_pending(line),
        !v.pend(line).unpend(line).line_pending(line),
        !v.unpend(line).line_pending(line),
        forall|l: u8|
            l < LINES && l != line ==> #[trigger] v.pend(line).line_pending(l) == v.line_pending(
                l,
            ),
        forall|l: u8|
            l < LINES && l != line ==> #[trigger] v.unpend(line).line_pending(l)
                == v.line_pending(l),
        forall|l: u8|
            l < LINES ==> #[trigger] v.pend(line).line_enabled(l) == v.line_enabled(l) && v.pend(
                line,
            ).line_active(l) == v.line_active(l),
{
    let b = (line % 32) as u32;
    assert forall|l: u8| #![all_triggers] l < LINES implies {
        &&& v.pend(line).line_pending(l) == (l == line || v.line_pending(l))
        &&& v.pend(line).line_enabled(l) == v.line_enabled(l)
        &&& v.pend(line).line_active(l) == v.line_active(l)
        &&& v.unpend(line).line_pending(l) == (l != line && v.line_pending(l))
        &&& v.pend(line).unpend(line).line_pending(l) == (l != line && v.pend(
            line,
        ).line_pending(l))
    } by {
        let j = (l % 32) as u32;
        if l as int / 32 == line as int / 32 {
            lemma_bit_or(v.pending[line as int / 32], b, j);
            lemma_bit_clear(v.pending[line as int / 32], b, j);
            lemma_bit_clear(v.pend(line).pending[line as int / 32], b, j);
            if j == b {
                lemma_line_split(l, line);
            }
        }
    }
}

/// Priority round trip: enabling with a priority stores exactly that
/// byte for the line, for any value of the 8-bit range, and leaves
/// every other line's priority unchanged.
pub proof fn lemma_priority_round_trip(v: PficView, line: u8, priority: u8)
    requires
        v.wf(),
        line < LINES,
    ensures
        v.enable(line, Some(priority)).line_priority(line) == priority,
        forall|l: u8|
            l < LINES && l != line ==> #[trigger] v.enable(line, Some(priority)).line_priority(l)
                == v.line_priority(l),
        forall|l: u8|
            l < LINES ==> #[trigger] v.enable(line, None).line_priority(l) == v.line_priority(l),
{
}

/// Interrupt-controller operations: each computes the line's bank and
/// bit and touches one register word.
pub trait PficExt {
    /// The register state the contracts speak of.
    spec fn model(&self) -> PficView;

    /// Enables `line`, storing `priority` for it when one is given.
    fn enable(&mut self, line: u8, priority: Option<u8>)
        requires
            old(self).model().wf(),
            line < LINES,
        ensures
            final(self).model() == old(self).model().enable(line, priority),
    ;

    /// Disables `line`.
    fn disable(&mut self, line: u8)
        requires
            old(self).model().wf(),
            line < LINES,
        ensures
            final(self).model() == old(self).model().disable(line),
    ;

    /// Whether `line` is enabled.
    fn is_enabled(&self, line: u8) -> (r: bool)
        requires
            self.model().wf(),
            line < LINES,
        ensures
            r == self.model().line_enabled(line),
    ;

    /// Makes `line` pending.
    fn pend(&mut self, line: u8)
        requires
            old(self).model().wf(),
            line < LINES,
        ensures
            final(self).model() == old(self).model().pend(line),
    ;

    /// Clears `line`'s pending bit.
    fn unpend(&mut self, line: u8)
        requires
            old(self).model().wf(),
            line < LINES,
        ensures
            final(self).model() == old(self).model().unpend(line),
    ;

    /// Whether `line` is pending.
    fn is_pending(&self, line: u8) -> (r: bool)
        requires
            self.model().wf(),
            line < LINES,
        ensures
            r == self.model().line_pending(line),
    ;

    /// Whether `line` is active, that is, its handler is running.
    fn is_active(&self, line: u8) -> (r: bool)
        requires
            self.model().wf(),
            line < LINES,
        ensures
            r == self.model().line_active(line),
    ;
}

impl Pfic {
    /// A controller with every line disabled, nothing pending or
    /// active, and all priorities zero.
    pub fn new() -> (pfic: Pfic)
        ensures
            pfic.model().wf(),
            forall|l: u8|
                l < LINES ==> !(#[trigger] pfic.model().line_enabled(l))
                    && !pfic.model().line_pending(l) && !pfic.model().line_active(l)
                    && pfic.model().line_priority(l) == 0,
    {
        let mut enabled: Vec<u32> = Vec::new();
        enabled.push(0);
        enabled.push(0);
        let mut pending: Vec<u32> = Vec::new();
        pending.push(0);
        pending.push(0);
        let mut active: Vec<u32> = Vec::new();
        active.push(0);
        active.push(0);
        let mut priorities: Vec<u8> = Vec::new();
        while priorities.len() < 64
            invariant
                priorities@.len() <= 64,
                forall|i: int| 0 <= i < priorities@.len() ==> priorities@[i] == 0,
            decreases 64 - priorities.len(),
        {
            priorities.push(0);
        }
        let pfic = Pfic { enabled, pending, active, priorities };
        proof {
            assert forall|l: u8| l < LINES implies !(#[trigger] pfic.model().line_enabled(l))
                && !pfic.model().line_pending(l) && !pfic.model().line_active(l) && pfic.model()
                .line_priority(l) == 0 by {
                lemma_zero_word((l % 32) as u32);
            }
        }
        pfic
    }
}

impl PficExt for Pfic {
    open spec fn model(&self) -> PficView {
        PficView {
            enabled: self.enabled@,
            pending: self.pending@,
            active: self.active@,
            priorities: self.priorities@,
        }
    }

    fn enable(&mut self, line: u8, priority: Option<u8>) {
        let off: usize = (line / 32) as usize;
        let bit: u32 = (line % 32) as u32;
        let word: u32 = self.enabled[off];
        self.enabled[off] = word | (1u32 << bit);
        match priority {
            Some(p) => {
                self.priorities[line as usize] = p;
            },
            None => {},
        }
    }

    fn disable(&mut self, line: u8) {
        let off: usize = (line / 32) as usize;
        let bit: u32 = (line % 32) as u32;
        let word: u32 = self.enabled[off];
        self.enabled[off] = word & !(1u32 << bit);
    }

    fn is_enabled(&self, line: u8) -> (r: bool) {
        let off: usize = (line / 32) as usize;
        let bit: u32 = (line % 32) as u32;
        self.enabled[off] & (1u32 << bit) != 0
    }

    fn pend(&mut self, line: u8) {
        let off: usize = (line / 32) as usize;
        let bit: u32 = (line % 32) as u32;
        let word: u32 = self.pending[off];
        self.pending[off] = word | (1u32 << bit);
    }

    fn unpend(&mut self, line: u8) {
        let off: usize = (line / 32) as usize;
        let bit: u32 = (line % 32) as u32;
        let word: u32 = self.pending[off];
        self.pending[off] = word & !(1u32 << bit);
    }

    fn is_pending(&self, line: u8) -> (r: bool) {
        let off: usize = (line / 32) as usize;
        let bit: u32 = (line % 32) as u32;
        self.pending[off] & (1u32 << bit) != 0
    }

    fn is_active(&self, line: u8) -> (r: bool) {
        let off: usize = (line / 32) as usize;
        let bit: u32 = (line % 32) as u32;
        self.active[off] & (1u32 << bit) != 0
    }
}

} // verus!
