use std::ops::{BitAnd, BitAndAssign, BitOr, BitOrAssign, BitXor, BitXorAssign, Not};
use vstd::arithmetic::power2::{lemma_pow2_unfold, pow2};
use vstd::prelude::*;

verus! {

/// A single binary signal.
#[derive(Debug, Clone, Copy, PartialEq, Eq, Structural)]
pub enum Bit {
    Low,
    High,
}

impl View for Bit {
    type V = bool;

    /// A bit is seen as the boolean `true` exactly when it is `High`.
    open spec fn view(&self) -> bool {
        match self {
            Bit::Low => false,
            Bit::High => true,
        }
    }
}

/// The bit whose view is `b`.
pub open spec fn bit_of(b: bool) -> Bit {
    if b {
        Bit::High
    } else {
        Bit::Low
    }
}

/// Multiplexer: `sel` chooses `b` when set, `a` otherwise.
pub open spec fn mux_spec(a: bool, b: bool, sel: bool) -> bool {
    if sel {
        b
    } else {
        a
    }
}

/// Demultiplexer: the input goes to the first output when `sel` is clear,
/// to the second when it is set; the other output is clear.
pub open spec fn dmux_spec(x: bool, sel: bool) -> (bool, bool) {
    (x && !sel, x && sel)
}

/// The number written by the selector bits, most significant bit first.
pub open spec fn select_index(sel: Seq<Bit>) -> nat
    decreases sel.len(),
{
    if sel.len() == 0 {
        0
    } else {
        2 * select_index(sel.drop_last()) + (if sel.last()@ {
            1nat
        } else {
            0nat
        })
    }
}

/// Output `j` of a demultiplexer driven by `sel`: it carries `x` when `j` is
/// the selected output, and is clear otherwise.
pub open spec fn demux_output(x: bool, sel: Seq<Bit>, j: int) -> bool {
    x && j == select_index(sel)
}

/// Whether some bit of the sequence is `High`.
pub open spec fn any_high(bits: Seq<Bit>) -> bool {
    exists|i: int| 0 <= i < bits.len() && (#[trigger] bits[i])@
}

impl Bit {
    /// NAND: `Low` exactly when both inputs are `High`.
    pub fn nand(self, other: Self) -> (r: Self)
        ensures
            r@ == !(self@ && other@),
    {
        match (self, other) {
            (Bit::High, Bit::High) => Bit::Low,
            _ => Bit::High,
        }
    }

    /// NOT, built as `nand(x, x)`.
    pub fn not(self) -> (r: Self)
        ensures
            r@ == !self@,
    {
        self.nand(self)
    }

    /// AND, built as `not(nand(x, y))`.
    pub fn and(self, other: Self) -> (r: Self)
        ensures
            r@ == (self@ && other@),
    {
        self.nand(other).not()
    }

    /// OR, built as `nand(not x, not y)`.
    pub fn or(self, other: Self) -> (r: Self)
        ensures
            r@ == (self@ || other@),
    {
        self.not().nand(other.not())
    }

    /// XOR, built as `and(nand(x, y), or(x, y))`.
    pub fn xor(self, other: Self) -> (r: Self)
        ensures
            r@ == (self@ != other@),
    {
        self.nand(other).and(self.or(other))
    }

    /// Multiplexer: `other` when `sel` is `High`, `self` otherwise.
    pub fn mux(self, other: Self, sel: Self) -> (r: Self)
        ensures
            r@ == mux_spec(self@, other@, sel@),
    {
        self.and(sel.not()).or(other.and(sel))
    }

    /// Demultiplexer: routes `self` to output 0 when `sel` is `Low` and to
    /// output 1 when `sel` is `High`; the other output is `Low`.
    pub fn dmux(self, sel: Self) -> (r: [Self; 2])
        ensures
            (r[0]@, r[1]@) == dmux_spec(self@, sel@),
    {
        [self.and(sel.not()), self.and(sel)]
    }

    /// Four-way demultiplexer: routes `self` to the output numbered by
    /// `sel` (most significant bit first); the other outputs are `Low`.
    pub fn dmux_4_way(self, sel: [Self; 2]) -> (r: [Self; 4])
        ensures
            forall|j: int| 0 <= j < 4 ==> (#[trigger] r[j])@ == demux_output(self@, sel@, j),
    {
        let first = self.dmux(sel[0]);
        let ab = first[0];
        let cd = first[1];
        let left = ab.dmux(sel[1]);
        let right = cd.dmux(sel[1]);
        let r = [left[0], left[1], right[0], right[1]];
        proof {
            reveal_with_fuel(select_index, 3);
            assert(sel@.drop_last().drop_last() =~= Seq::<Bit>::empty());
        }
        r
    }

    /// Eight-way demultiplexer: routes `self` to the output numbered by
    /// `sel` (most significant bit first); the other outputs are `Low`.
    pub fn dmux_8_way(self, sel: [Self; 3]) -> (r: [Self; 8])
        ensures
            forall|j: int| 0 <= j < 8 ==> (#[trigger] r[j])@ == demux_output(self@, sel@, j),
    {
        let first = self.dmux(sel[0]);
        let abcd = first[0];
        let efgh = first[1];
        let low_sel = [sel[1], sel[2]];
        let left = abcd.dmux_4_way(low_sel);
        let right = efgh.dmux_4_way(low_sel);
        let r = [left[0], left[1], left[2], left[3], right[0], right[1], right[2], right[3]];
        proof {
            reveal_with_fuel(select_index, 4);
            assert(sel@.drop_last().drop_last().drop_last() =~= Seq::<Bit>::empty());
            assert(low_sel@.drop_last().drop_last() =~= Seq::<Bit>::empty());
            assert(low_sel@.drop_last() =~= seq![sel[1]]);
            assert(sel@.drop_last().drop_last() =~= seq![sel[0]]);
        }
        r
    }
}

/// OR of all the bits of the array; `Low` when the array is empty.
pub fn or_n_way<const N: usize>(values: [Bit; N]) -> (r: Bit)
    ensures
        r@ == any_high(values@),
{
    if N == 0 {
        return Bit::Low;
    }
    let mut result = values[0];
    let mut i: usize = 1;
    while i < N
        invariant
            1 <= i <= N,
            values@.len() == N,
            result@ == exists|j: int| 0 <= j < i && (#[trigger] values@[j])@,
        decreases N - i,
    {
        result = result.or(values[i]);
        i += 1;
    }
    result
}

/// OR of all the bits of the slice; `Low` when the slice is empty.
pub fn or_slice(values: &[Bit]) -> (r: Bit)
    ensures
        r@ == any_high(values@),
{
    if values.is_empty() {
        return Bit::Low;
    }
    let mut result = values[0];
    let mut i: usize = 1;
    while i < values.len()
        invariant
            1 <= i <= values@.len(),
            result@ == exists|j: int| 0 <= j < i && (#[trigger] values@[j])@,
        decreases values@.len() - i,
    {
        result = result.or(values[i]);
        i += 1;
    }
    result
}

impl BitAnd for Bit {
    type Output = Self;

    fn bitand(self, rhs: Self) -> (r: Self)
        ensures
            r@ == (self@ && rhs@),
    {
        self.and(rhs)
    }
}

impl vstd::std_specs::ops::BitAndSpecImpl for Bit {
    open spec fn obeys_bitand_spec() -> bool {
        true
    }

    open spec fn bitand_req(self, rhs: Bit) -> bool {
        true
    }

    open spec fn bitand_spec(self, rhs: Bit) -> Bit {
        bit_of(self@ && rhs@)
    }
}

impl BitAndAssign for Bit {
    fn bitand_assign(&mut self, rhs: Self)
        ensures
            final(self)@ == (old(self)@ && rhs@),
    {
        *self = *self & rhs;
    }
}

impl BitOr for Bit {
    type Output = Self;

    fn bitor(self, rhs: Self) -> (r: Self)
        ensures
            r@ == (self@ || rhs@),
    {
        self.or(rhs)
    }
}

impl vstd::std_specs::ops::BitOrSpecImpl for Bit {
    open spec fn obeys_bitor_spec() -> bool {
        true
    }

    open spec fn bitor_req(self, rhs: Bit) -> bool {
        true
    }

    open spec fn bitor_spec(self, rhs: Bit) -> Bit {
        bit_of(self@ || rhs@)
    }
}

impl BitOrAssign for Bit {
    fn bitor_assign(&mut self, rhs: Self)
        ensures
            final(self)@ == (old(self)@ || rhs@),
    {
        *self = *self | rhs;
    }
}

impl BitXor for Bit {
    type Output = Self;

    fn bitxor(self, rhs: Self) -> (r: Self)
        ensures
            r@ == (self@ != rhs@),
    {
        self.xor(rhs)
    }
}

impl vstd::std_specs::ops::BitXorSpecImpl for Bit {
    open spec fn obeys_bitxor_spec() -> bool {
        true
    }

    open spec fn bitxor_req(self, rhs: Bit) -> bool {
        true
    }

    open spec fn bitxor_spec(self, rhs: Bit) -> Bit {
        bit_of(self@ != rhs@)
    }
}

impl BitXorAssign for Bit {
    fn bitxor_assign(&mut self, rhs: Self)
        ensures
            final(self)@ == (old(self)@ != rhs@),
    {
        *self = *self ^ rhs;
    }
}

impl Not for Bit {
    type Output = Self;

    fn not(self) -> (r: Self)
        ensures
            r@ == !self@,
    {
        Bit::not(self)
    }
}

impl vstd::std_specs::ops::NotSpecImpl for Bit {
    open spec fn obeys_not_spec() -> bool {
        true
    }

    open spec fn not_req(self) -> bool {
        true
    }

    open spec fn not_spec(self) -> Bit {
        bit_of(!self@)
    }
}

/// Feeding the two outputs of a demultiplexer into a multiplexer driven by
/// the same selector gives back the demultiplexed input.
pub proof fn law_mux_undoes_dmux(x: bool, sel: bool)
    ensures
        mux_spec(dmux_spec(x, sel).0, dmux_spec(x, sel).1, sel) == x,
{
}

/// An n-bit selector names one of the 2^n outputs of a demultiplexer.
pub proof fn lemma_select_index_bound(sel: Seq<Bit>)
    ensures
        select_index(sel) < pow2(sel.len()),
    decreases sel.len(),
{
    if sel.len() == 0 {
        assert(pow2(0) == 1) by {
            vstd::arithmetic::power2::lemma2_to64();
        }
    } else {
        lemma_select_index_bound(sel.drop_last());
        lemma_pow2_unfold(sel.len());
    }
}

/// OR-ing together all the outputs of a demultiplexer gives back its input:
/// exactly the selected output carries it, and every other output is `Low`.
pub proof fn law_or_of_demux_outputs(x: bool, sel: Seq<Bit>, outputs: Seq<Bit>)
    requires
        outputs.len() == pow2(sel.len()),
        forall|j: int| 0 <= j < outputs.len() ==> (#[trigger] outputs[j])@ == demux_output(x, sel, j),
    ensures
        any_high(outputs) == x,
{
    lemma_select_index_bound(sel);
    if x {
        let j = select_index(sel) as int;
        assert(outputs[j]@);
    }
}

} // verus!
