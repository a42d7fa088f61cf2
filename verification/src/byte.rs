use std::ops::{BitAnd, BitAndAssign, BitOr, BitOrAssign, BitXor, BitXorAssign, Index, Not};
use vstd::prelude::*;

use crate::bit::{bit_of, mux_spec, Bit};

verus! {

broadcast use vstd::array::group_array_axioms;

/// Eight bits, processed position by position.
#[derive(Debug, Clone, Copy, Eq)]
pub struct Byte([Bit; 8]);

impl View for Byte {
    type V = Seq<bool>;

    /// The eight bits, each seen as a boolean.
    closed spec fn view(&self) -> Seq<bool> {
        self.0@.map_values(|b: Bit| b@)
    }
}

impl PartialEq for Byte {
    fn eq(&self, other: &Self) -> (r: bool) {
        let mut i: usize = 0;
        while i < 8
            invariant
                0 <= i <= 8,
                forall|k: int| 0 <= k < i ==> #[trigger] self.0[k] == other.0[k],
            decreases 8 - i,
        {
            if self.0[i] != other.0[i] {
                assert(self@[i as int] != other@[i as int]);
                return false;
            }
            i += 1;
        }
        assert(self@ =~= other@);
        true
    }
}

impl vstd::std_specs::cmp::PartialEqSpecImpl for Byte {
    open spec fn obeys_eq_spec() -> bool {
        true
    }

    open spec fn eq_spec(&self, other: &Self) -> bool {
        self@ == other@
    }
}

/// Every byte is seen as exactly eight booleans.
pub broadcast proof fn lemma_byte_len(b: Byte)
    ensures
        #[trigger] b@.len() == 8,
{
}

/// Two bytes with the same bits are the same byte.
pub proof fn lemma_byte_view_injective(a: Byte, b: Byte)
    requires
        a@ == b@,
    ensures
        a == b,
{
    assert forall|i: int| 0 <= i < 8 implies a.0[i] == b.0[i] by {
        assert(a@[i] == a.0[i]@);
        assert(b@[i] == b.0[i]@);
    }
    assert(a.0 =~= b.0);
}

/// The byte whose bits are `v` (meaningful when `v` has eight elements).
pub closed spec fn byte_of(v: Seq<bool>) -> Byte {
    choose|b: Byte| b@ == v
}

/// A byte is the byte of its own bits.
proof fn lemma_byte_of_view(b: Byte)
    ensures
        byte_of(b@) == b,
{
    let c = byte_of(b@);
    assert(c@ == b@);
    lemma_byte_view_injective(c, b);
}

/// Bitwise NAND.
pub open spec fn nand_bits(a: Seq<bool>, b: Seq<bool>) -> Seq<bool> {
    Seq::new(a.len(), |i: int| !(a[i] && b[i]))
}

/// Bitwise NOT.
pub open spec fn not_bits(a: Seq<bool>) -> Seq<bool> {
    Seq::new(a.len(), |i: int| !a[i])
}

/// Bitwise AND.
pub open spec fn and_bits(a: Seq<bool>, b: Seq<bool>) -> Seq<bool> {
    Seq::new(a.len(), |i: int| a[i] && b[i])
}

/// Bitwise OR.
pub open spec fn or_bits(a: Seq<bool>, b: Seq<bool>) -> Seq<bool> {
    Seq::new(a.len(), |i: int| a[i] || b[i])
}

/// Bitwise XOR.
pub open spec fn xor_bits(a: Seq<bool>, b: Seq<bool>) -> Seq<bool> {
    Seq::new(a.len(), |i: int| a[i] != b[i])
}

/// Bitwise multiplexer with one shared selector.
pub open spec fn mux_bits(a: Seq<bool>, b: Seq<bool>, sel: bool) -> Seq<bool> {
    Seq::new(a.len(), |i: int| mux_spec(a[i], b[i], sel))
}

/// Whether every selector bit is `High`.
pub open spec fn all_high(sel: Seq<Bit>) -> bool {
    forall|k: int| 0 <= k < sel.len() ==> (#[trigger] sel[k])@
}

/// Output `j` of the byte demultiplexers: output 0 holds `x` AND-ed with
/// every selector bit; every other output is all clear.
pub open spec fn byte_demux_output(x: Seq<bool>, sel: Seq<Bit>, j: int) -> Seq<bool> {
    Seq::new(x.len(), |i: int| x[i] && j == 0 && all_high(sel))
}

impl Byte {
    /// The byte made of the given eight bits.
    pub fn new(bits: [Bit; 8]) -> (r: Byte)
        ensures
            r@ == bits@.map_values(|b: Bit| b@),
    {
        Byte(bits)
    }

    /// Bitwise NAND.
    pub fn nand(self, other: Self) -> (r: Self)
        ensures
            r@ == nand_bits(self@, other@),
    {
        let mut bits = self.0;
        let mut i: usize = 0;
        while i < 8
            invariant
                0 <= i <= 8,
                forall|k: int| 0 <= k < i ==> (#[trigger] bits[k])@ == !(self.0[k]@ && other.0[k]@),
                forall|k: int| i <= k < 8 ==> #[trigger] bits[k] == self.0[k],
            decreases 8 - i,
        {
            bits[i] = bits[i].nand(other.0[i]);
            i += 1;
        }
        let r = Byte(bits);
        assert(r@ =~= nand_bits(self@, other@));
        r
    }

    /// Bitwise NOT, built as `nand(x, x)`.
    pub fn not(self) -> (r: Self)
        ensures
            r@ == not_bits(self@),
    {
        let r = self.nand(self);
        assert(r@ =~= not_bits(self@));
        r
    }

    /// Bitwise AND, built as `not(nand(x, y))`.
    pub fn and(self, other: Self) -> (r: Self)
        ensures
            r@ == and_bits(self@, other@),
    {
        let r = self.nand(other).not();
        assert(r@ =~= and_bits(self@, other@));
        r
    }

    /// Bitwise OR, built as `nand(not x, not y)`.
    pub fn or(self, other: Self) -> (r: Self)
        ensures
            r@ == or_bits(self@, other@),
    {
        let r = self.not().nand(other.not());
        assert(r@ =~= or_bits(self@, other@));
        r
    }

    /// Bitwise XOR, built as `and(nand(x, y), or(x, y))`.
    pub fn xor(self, other: Self) -> (r: Self)
        ensures
            r@ == xor_bits(self@, other@),
    {
        let r = self.nand(other).and(self.or(other));
        assert(r@ =~= xor_bits(self@, other@));
        r
    }

    /// Multiplexer: `other` when `sel` is `High`, `self` otherwise.
    pub fn mux(self, other: Self, sel: Bit) -> (r: Self)
        ensures
            r@ == mux_bits(self@, other@, sel@),
    {
        let mut bits = self.0;
        let mut i: usize = 0;
        while i < 8
            invariant
                0 <= i <= 8,
                forall|k: int| 0 <= k < i ==> (#[trigger] bits[k])@ == mux_spec(self.0[k]@, other.0[k]@, sel@),
                forall|k: int| i <= k < 8 ==> #[trigger] bits[k] == self.0[k],
            decreases 8 - i,
        {
            bits[i] = bits[i].and(sel.not()).or(other.0[i].and(sel));
            i += 1;
        }
        let r = Byte(bits);
        assert(r@ =~= mux_bits(self@, other@, sel@));
        r
    }

    /// Demultiplexer over a byte. The first output holds `self` AND `sel`,
    /// bit by bit; the second output is all `Low`.
    pub fn dmux(self, sel: Bit) -> (r: [Self; 2])
        ensures
            r[0]@ == Seq::new(8, |i: int| self@[i] && sel@),
            r[1]@ == Seq::new(8, |i: int| false),
    {
        let mut first = [Bit::Low; 8];
        let second = [Bit::Low; 8];
        let mut i: usize = 0;
        while i < 8
            invariant
                0 <= i <= 8,
                forall|k: int| 0 <= k < i ==> (#[trigger] first[k])@ == (self.0[k]@ && sel@),
                forall|k: int| 0 <= k < 8 ==> !(#[trigger] second[k])@,
            decreases 8 - i,
        {
            first[i] = self.0[i].and(sel);
            i += 1;
        }
        let r = [Byte(first), Byte(second)];
        assert(r[0]@ =~= Seq::new(8, |i: int| self@[i] && sel@));
        assert(r[1]@ =~= Seq::new(8, |i: int| false));
        r
    }

    /// Four-way demultiplexer built from `dmux`: output 0 holds `self` AND
    /// both selector bits, bit by bit; the other outputs are all `Low`.
    pub fn dmux_4_way(self, sel: [Bit; 2]) -> (r: [Self; 4])
        ensures
            forall|j: int| 0 <= j < 4 ==> (#[trigger] r[j])@ == byte_demux_output(self@, sel@, j),
    {
        let first = self.dmux(sel[0]);
        let ab = first[0];
        let cd = first[1];
        let left = ab.dmux(sel[1]);
        let right = cd.dmux(sel[1]);
        let r = [left[0], left[1], right[0], right[1]];
        assert(all_high(sel@) == (sel[0]@ && sel[1]@));
        assert forall|j: int| 0 <= j < 4 implies (#[trigger] r[j])@ == byte_demux_output(self@, sel@, j) by {
            assert(r[j]@ =~= byte_demux_output(self@, sel@, j));
        }
        r
    }

    /// Eight-way demultiplexer built from `dmux` and `dmux_4_way`: output 0
    /// holds `self` AND all three selector bits, bit by bit; the other
    /// outputs are all `Low`.
    pub fn dmux_8_way(self, sel: [Bit; 3]) -> (r: [Self; 8])
        ensures
            forall|j: int| 0 <= j < 8 ==> (#[trigger] r[j])@ == byte_demux_output(self@, sel@, j),
    {
        let first = self.dmux(sel[0]);
        let abcd = first[0];
        let efgh = first[1];
        let low_sel = [sel[1], sel[2]];
        let left = abcd.dmux_4_way(low_sel);
        let right = efgh.dmux_4_way(low_sel);
        let r = [left[0], left[1], left[2], left[3], right[0], right[1], right[2], right[3]];
        assert(all_high(sel@) == (sel[0]@ && sel[1]@ && sel[2]@));
        assert(all_high(low_sel@) == (sel[1]@ && sel[2]@));
        assert forall|j: int| 0 <= j < 8 implies (#[trigger] r[j])@ == byte_demux_output(self@, sel@, j) by {
            assert(r[j]@ =~= byte_demux_output(self@, sel@, j));
        }
        r
    }

    /// The bit at `bit_index`, or `None` when the index is past the eighth bit.
    pub fn get(self, bit_index: usize) -> (r: Option<Bit>)
        ensures
            r == (if bit_index < 8 {
                Some(bit_of(self@[bit_index as int]))
            } else {
                None
            }),
    {
        if bit_index < 8 {
            Some(self.0[bit_index])
        } else {
            None
        }
    }
}

impl BitAnd for Byte {
    type Output = Self;

    fn bitand(self, rhs: Self) -> (r: Self)
        ensures
            r@ == and_bits(self@, rhs@),
    {
        let r = self.and(rhs);
        proof {
            lemma_byte_of_view(r);
        }
        r
    }
}

impl vstd::std_specs::ops::BitAndSpecImpl for Byte {
    open spec fn obeys_bitand_spec() -> bool {
        true
    }

    open spec fn bitand_req(self, rhs: Byte) -> bool {
        true
    }

    open spec fn bitand_spec(self, rhs: Byte) -> Byte {
        byte_of(and_bits(self@, rhs@))
    }
}

impl BitAndAssign for Byte {
    fn bitand_assign(&mut self, rhs: Self)
        ensures
            final(self)@ == and_bits(old(self)@, rhs@),
    {
        *self = *self & rhs;
    }
}

impl BitOr for Byte {
    type Output = Self;

    fn bitor(self, rhs: Self) -> (r: Self)
        ensures
            r@ == or_bits(self@, rhs@),
    {
        let r = self.or(rhs);
        proof {
            lemma_byte_of_view(r);
        }
        r
    }
}

impl vstd::std_specs::ops::BitOrSpecImpl for Byte {
    open spec fn obeys_bitor_spec() -> bool {
        true
    }

    open spec fn bitor_req(self, rhs: Byte) -> bool {
        true
    }

    open spec fn bitor_spec(self, rhs: Byte) -> Byte {
        byte_of(or_bits(self@, rhs@))
    }
}

impl BitOrAssign for Byte {
    fn bitor_assign(&mut self, rhs: Self)
        ensures
            final(self)@ == or_bits(old(self)@, rhs@),
    {
        *self = *self | rhs;
    }
}

impl BitXor for Byte {
    type Output = Self;

    fn bitxor(self, rhs: Self) -> (r: Self)
        ensures
            r@ == xor_bits(self@, rhs@),
    {
        let r = self.xor(rhs);
        proof {
            lemma_byte_of_view(r);
        }
        r
    }
}

impl vstd::std_specs::ops::BitXorSpecImpl for Byte {
    open spec fn obeys_bitxor_spec() -> bool {
        true
    }

    open spec fn bitxor_req(self, rhs: Byte) -> bool {
        true
    }

    open spec fn bitxor_spec(self, rhs: Byte) -> Byte {
        byte_of(xor_bits(self@, rhs@))
    }
}

impl BitXorAssign for Byte {
    fn bitxor_assign(&mut self, rhs: Self)
        ensures
            final(self)@ == xor_bits(old(self)@, rhs@),
    {
        *self = *self ^ rhs;
    }
}

impl Not for Byte {
    type Output = Self;

    fn not(self) -> (r: Self)
        ensures
            r@ == not_bits(self@),
    {
        let r = Byte::not(self);
        proof {
            lemma_byte_of_view(r);
        }
        r
    }
}

impl vstd::std_specs::ops::NotSpecImpl for Byte {
    open spec fn obeys_not_spec() -> bool {
        true
    }

    open spec fn not_req(self) -> bool {
        true
    }

    open spec fn not_spec(self) -> Byte {
        byte_of(not_bits(self@))
    }
}

impl Index<usize> for Byte {
    type Output = Bit;

    fn index(&self, index: usize) -> (r: &Bit)
        ensures
            *r == bit_of(self@[index as int]),
    {
        &self.0[index]
    }
}

impl vstd::std_specs::core::IndexSpecImpl<usize> for Byte {
    open spec fn index_req(&self, index: &usize) -> bool {
        *index < 8
    }
}

/// NOT applied twice gives back the byte.
pub proof fn law_not_involutive(x: Seq<bool>)
    ensures
        not_bits(not_bits(x)) == x,
{
    assert(not_bits(not_bits(x)) =~= x);
}

/// De Morgan: the NOT of an AND is the OR of the NOTs, and the NOT of an OR
/// is the AND of the NOTs.
pub proof fn law_de_morgan(a: Seq<bool>, b: Seq<bool>)
    requires
        a.len() == b.len(),
    ensures
        not_bits(and_bits(a, b)) == or_bits(not_bits(a), not_bits(b)),
        not_bits(or_bits(a, b)) == and_bits(not_bits(a), not_bits(b)),
{
    assert(not_bits(and_bits(a, b)) =~= or_bits(not_bits(a), not_bits(b)));
    assert(not_bits(or_bits(a, b)) =~= and_bits(not_bits(a), not_bits(b)));
}

/// Feeding the two outputs of `Byte::dmux` into `Byte::mux` driven by the
/// same selector gives back the input byte when that byte is all `Low`
/// (both outputs of `Byte::dmux` are then all `Low`).
pub proof fn law_byte_mux_undoes_dmux(x: Seq<bool>, sel: bool)
    requires
        x.len() == 8,
        forall|i: int| 0 <= i < 8 ==> !#[trigger] x[i],
    ensures
        mux_bits(Seq::new(8, |i: int| x[i] && sel), Seq::new(8, |i: int| false), sel) == x,
{
    assert(mux_bits(Seq::new(8, |i: int| x[i] && sel), Seq::new(8, |i: int| false), sel) =~= x);
}

} // verus!
