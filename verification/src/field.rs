//! The arithmetic that contracts are stated over: field elements as natural
//! numbers, byte strings as little-endian integers, scalars as bit strings.

use vstd::prelude::*;

verus! {

/// The order of the field that circuits are written over: the scalar field of
/// BLS12-377, which is the base field of the decaf377 group.
pub open spec fn modulus() -> nat {
    8444461749428370424248824938781546531375899335154063827935233455917409239041nat
}

/// The integer that a byte string spells, least significant byte first.
pub open spec fn le_value(bytes: Seq<u8>) -> nat
    decreases bytes.len(),
{
    if bytes.len() == 0 {
        0
    } else {
        bytes[0] as nat + 256 * le_value(bytes.skip(1))
    }
}

/// The field element that a byte string denotes once it is reduced.
pub open spec fn reduce(bytes: Seq<u8>) -> nat {
    le_value(bytes) % modulus()
}

/// Bit `i` of a byte string, counting from the least significant bit of the
/// first byte.
pub open spec fn bit_at(bytes: Seq<u8>, i: int) -> bool {
    (bytes[i / 8] >> ((i % 8) as u8)) & 1u8 == 1u8
}

/// The little-endian bit decomposition of a byte string: eight bits a byte.
pub open spec fn bits_le(bytes: Seq<u8>) -> Seq<bool> {
    Seq::new(8 * bytes.len(), |i: int| bit_at(bytes, i))
}

/// Whether every byte of the string is zero.
pub open spec fn all_zero(bytes: Seq<u8>) -> bool {
    forall|i: int| 0 <= i < bytes.len() ==> bytes[i] == 0u8
}

/// A string of zero bytes has no bit set.
pub proof fn lemma_zero_bytes_have_no_bit(bytes: Seq<u8>)
    requires
        all_zero(bytes),
    ensures
        forall|i: int| 0 <= i < bits_le(bytes).len() ==> !bits_le(bytes)[i],
{
    assert forall|i: int| 0 <= i < bits_le(bytes).len() implies !bits_le(bytes)[i] by {
        let k: u8 = (i % 8) as u8;
        assert(bytes[i / 8] == 0u8);
        assert((0u8 >> k) & 1u8 == 0u8) by (bit_vector);
    }
}

} // verus!
