//! The domain separators of the two derivations.

use vstd::prelude::*;
use crate::field::le_value;
use crate::field::reduce;

verus! {

/// The separator of note commitments: the BLAKE2b-512 digest of the label
/// `penumbra.notecommit`, read as a little-endian integer and reduced.
pub open spec fn notecommit_separator() -> nat {
    4034037169782771499454895757564722809341079210284403804499754285169114816627nat
}

/// The separator of nullifiers: the BLAKE2b-512 digest of the label
/// `penumbra.nullifier`, read as a little-endian integer and reduced.
pub open spec fn nullifier_separator() -> nat {
    5379060018020709603536552469582928598294319272435244111380218995696999540971nat
}

/// The canonical bytes of the note commitment separator.
pub const NOTECOMMIT_DOMAIN_SEP: [u8; 32] = [
    115, 32, 219, 53, 176, 134, 230, 2, 215, 45, 250, 37, 193, 61, 73, 75, 233, 95, 111, 112, 63,
    213, 131, 43, 191, 222, 149, 210, 34, 47, 235, 8,
];

/// The canonical bytes of the nullifier separator.
pub const NULLIFIER_DOMAIN_SEP: [u8; 32] = [
    235, 40, 207, 194, 154, 2, 22, 205, 204, 213, 98, 3, 149, 185, 19, 180, 105, 55, 41, 201, 176,
    157, 235, 192, 104, 162, 159, 9, 169, 112, 228, 11,
];

/// The byte constants spell the two separators, already reduced.
pub proof fn lemma_separator_bytes()
    ensures
        reduce(NOTECOMMIT_DOMAIN_SEP@) == notecommit_separator(),
        reduce(NULLIFIER_DOMAIN_SEP@) == nullifier_separator(),
{
    reveal_with_fuel(le_value, 33);
    assert(le_value(NOTECOMMIT_DOMAIN_SEP@) == notecommit_separator());
    assert(le_value(NULLIFIER_DOMAIN_SEP@) == nullifier_separator());
}

} // verus!
