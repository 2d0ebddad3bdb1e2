//! Bit vectors: what they hold, and how bytes and bits correspond.

use vstd::prelude::*;
use bit_vec::BitVec;

verus! {

/// The bits that a bit vector holds, in index order.
pub uninterp spec fn bits(v: BitVec) -> Seq<bool>;

/// Bit `i` of a byte, counted from the most significant bit.
pub open spec fn bit_of_byte(byte: u8, i: int) -> bool {
    (byte >> ((7 - i) as u8)) & 1 == 1
}

/// The bits of a byte sequence: eight per byte, the most significant first.
pub open spec fn bits_of_bytes(bytes: Seq<u8>) -> Seq<bool> {
    Seq::new(8 * bytes.len(), |i: int| bit_of_byte(bytes[i / 8], i % 8))
}

/// The weight of bit `i` of `bits` within its byte; nothing where the bit is
/// clear or lies past the end.
pub open spec fn bit_weight(bits: Seq<bool>, i: int) -> int {
    if 0 <= i < bits.len() && bits[i] {
        if i % 8 == 0 {
            128
        } else if i % 8 == 1 {
            64
        } else if i % 8 == 2 {
            32
        } else if i % 8 == 3 {
            16
        } else if i % 8 == 4 {
            8
        } else if i % 8 == 5 {
            4
        } else if i % 8 == 6 {
            2
        } else {
            1
        }
    } else {
        0
    }
}

/// Byte `k` of a bit sequence: its first bit is the byte's most significant.
pub open spec fn byte_of_bits(bits: Seq<bool>, k: int) -> u8 {
    (bit_weight(bits, 8 * k) + bit_weight(bits, 8 * k + 1) + bit_weight(bits, 8 * k + 2)
        + bit_weight(bits, 8 * k + 3) + bit_weight(bits, 8 * k + 4) + bit_weight(bits, 8 * k + 5)
        + bit_weight(bits, 8 * k + 6) + bit_weight(bits, 8 * k + 7)) as u8
}

/// The bytes of a bit sequence; bits missing from the last byte count as clear.
pub open spec fn bytes_of_bits(bits: Seq<bool>) -> Seq<u8> {
    Seq::new((bits.len() + 7) / 8, |k: int| byte_of_bits(bits, k))
}

#[verifier::external_type_specification]
#[verifier::external_body]
#[verifier::reject_recursive_types(B)]
pub struct ExBitVec<B>(BitVec<B>);

/// `BitVec::from_bytes`: each byte becomes eight bits, the most significant
/// first. It panics when the number of bits overflows, which `requires` rules out.
#[verifier::external_body]
pub(crate) fn bits_from_bytes(bytes: &[u8]) -> (v: BitVec)
    requires
        8 * bytes@.len() <= usize::MAX,
    ensures
        bits(v) == bits_of_bytes(bytes@),
{
    BitVec::from_bytes(bytes)
}

/// `BitVec::set`: bit `i` becomes `x` and the others stay. It panics when `i`
/// is out of bounds, which `requires` rules out.
#[verifier::external_body]
pub(crate) fn set_bit(v: &mut BitVec, i: usize, x: bool)
    requires
        i < bits(*old(v)).len(),
    ensures
        bits(*final(v)) == bits(*old(v)).update(i as int, x),
{
    v.set(i, x)
}

/// `BitVec::to_bytes`: the first bit becomes the high-order bit of the first
/// byte; a last byte that is not filled is completed with clear bits.
#[verifier::external_body]
pub(crate) fn bits_to_bytes(v: &BitVec) -> (bytes: Vec<u8>)
    ensures
        bytes@ == bytes_of_bits(bits(*v)),
{
    v.to_bytes()
}

} // verus!
