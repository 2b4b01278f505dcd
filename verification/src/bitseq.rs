//! The bit sequence that an AIS payload decodes to, kept in a `bitvec`
//! vector. What the vector does is taken on trust from the `bitvec` crate:
//! the functions marked `external_body` state it, and the codec is proved
//! against what they state.

use bitvec::order::Lsb0;
use bitvec::vec::BitVec;
use vstd::prelude::*;

verus! {

/// An ordered sequence of bits, held in a `bitvec::vec::BitVec`. What it
/// holds is `bit_seq`.
#[verifier::external_body]
#[derive(Debug)]
pub struct BitSequence {
    bits: BitVec<usize, Lsb0>,
}

/// The bits that a bit sequence holds, first pushed first.
pub uninterp spec fn bit_seq(bv: &BitSequence) -> Seq<bool>;

/// The largest number of bits that a bit vector can hold: `bitvec` keeps
/// three bits of the length word for itself.
pub open spec fn max_bits() -> int {
    (usize::MAX as int) / 8
}

/// `BitVec::with_capacity`: an empty vector. The call panics above
/// the crate's maximal length, which `requires` leaves out.
#[verifier::external_body]
pub(crate) fn bits_with_capacity(capacity: usize) -> (bv: BitSequence)
    requires
        capacity <= max_bits(),
    ensures
        bit_seq(&bv) == Seq::<bool>::empty(),
{
    BitSequence { bits: BitVec::<usize, Lsb0>::with_capacity(capacity) }
}

/// `BitVec::push`: appends one bit at the end.
#[verifier::external_body]
pub(crate) fn bits_push(bv: &mut BitSequence, value: bool)
    requires
        bit_seq(old(bv)).len() < max_bits(),
    ensures
        bit_seq(final(bv)) == bit_seq(old(bv)).push(value),
{
    bv.bits.push(value)
}

/// `BitVec::len`: the number of bits held, which is never above the
/// crate's maximal length.
#[verifier::external_body]
pub(crate) fn bits_len(bv: &BitSequence) -> (n: usize)
    ensures
        n == bit_seq(bv).len(),
        n <= max_bits(),
{
    bv.bits.len()
}

/// `BitSlice::get` with one index: the bit there, or `None` past the end.
#[verifier::external_body]
pub(crate) fn bits_get(bv: &BitSequence, pos: usize) -> (bit: Option<bool>)
    ensures
        bit == (if pos < bit_seq(bv).len() {
            Some(bit_seq(bv)[pos as int])
        } else {
            None::<bool>
        }),
{
    bv.bits.get(pos).map(|b| *b)
}

/// Makes a bit sequence of the given bits, in order.
pub fn bits_from_bools(bits: &Vec<bool>) -> (bv: BitSequence)
    requires
        bits@.len() <= max_bits(),
    ensures
        bit_seq(&bv) == bits@,
{
    let n: usize = bits.len();
    let mut bv: BitSequence = bits_with_capacity(n);
    let mut i: usize = 0;
    while i < n
        invariant
            n == bits@.len(),
            n <= max_bits(),
            i <= n,
            bit_seq(&bv) == bits@.subrange(0, i as int),
        decreases n - i,
    {
        bits_push(&mut bv, bits[i]);
        assert(bits@.subrange(0, i as int).push(bits@[i as int]) =~= bits@.subrange(
            0,
            i as int + 1,
        ));
        i += 1;
    }
    assert(bits@.subrange(0, n as int) =~= bits@);
    bv
}

} // verus!
