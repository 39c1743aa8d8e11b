//! The values that go into a circuit, outside of it: a note and its parts,
//! and the two derivations as functions of plain numbers.

use vstd::prelude::*;
use decaf377::Element;
use decaf377::Fq;
use crate::backend::element_encoding;
use crate::backend::fq_from_le_bytes_mod_order;
use crate::backend::fq_value;
use crate::backend::poseidon_hash_3;
use crate::backend::poseidon_hash_6;
use crate::field::reduce;
use crate::separator::notecommit_separator;
use crate::separator::nullifier_separator;

verus! {

/// An amount of one asset.
#[derive(Clone, Copy, Debug)]
pub struct Value {
    pub amount: u128,
    /// The field element that identifies the asset.
    pub asset_id: Fq,
}

/// Where a note is sent.
#[derive(Clone, Copy, Debug)]
pub struct Address {
    pub diversified_generator: Element,
    /// The transmission key, as the 32 bytes that encode a group element.
    pub transmission_key: [u8; 32],
    /// The clue key, as 32 bytes read little-endian and reduced.
    pub clue_key: [u8; 32],
    /// The transmission key once more, as the field element that its bytes
    /// spell. Hashing takes this form.
    pub transmission_key_s: Fq,
}

/// A note: a value, the address that holds it, and the blinding that hides
/// both in the commitment.
#[derive(Clone, Copy, Debug)]
pub struct Note {
    pub value: Value,
    pub note_blinding: Fq,
    pub address: Address,
}

/// The six field elements that a note commitment binds.
pub struct Opening {
    pub note_blinding: nat,
    pub amount: nat,
    pub asset_id: nat,
    pub diversified_generator: nat,
    pub transmission_key_s: nat,
    pub clue_key: nat,
}

/// What the commitment hashes, in order.
pub open spec fn commitment_inputs(o: Opening) -> Seq<nat> {
    seq![
        o.note_blinding,
        o.amount,
        o.asset_id,
        o.diversified_generator,
        o.transmission_key_s,
        o.clue_key,
    ]
}

/// What the nullifier hashes, in order.
pub open spec fn nullifier_inputs(nullifier_key: nat, commitment: nat, position: nat) -> Seq<nat> {
    seq![nullifier_key, commitment, position]
}

/// The six-input hash of the first six entries of a sequence.
pub open spec fn hash_6_of(separator: nat, inputs: Seq<nat>) -> nat {
    poseidon_hash_6(
        separator,
        inputs[0],
        inputs[1],
        inputs[2],
        inputs[3],
        inputs[4],
        inputs[5],
    )
}

/// The three-input hash of the first three entries of a sequence.
pub open spec fn hash_3_of(separator: nat, inputs: Seq<nat>) -> nat {
    poseidon_hash_3(separator, inputs[0], inputs[1], inputs[2])
}

/// The commitment to a note with that opening: the six-input hash under the
/// note commitment separator.
pub open spec fn note_commitment(o: Opening) -> nat {
    hash_6_of(notecommit_separator(), commitment_inputs(o))
}

/// The nullifier of the note with that commitment at that position, under
/// that nullifier key: the three-input hash under the nullifier separator.
pub open spec fn nullifier(nullifier_key: nat, commitment: nat, position: nat) -> nat {
    hash_3_of(nullifier_separator(), nullifier_inputs(nullifier_key, commitment, position))
}

impl Address {
    /// The two forms of the transmission key agree: the field element is what
    /// the bytes spell.
    pub open spec fn consistent(&self) -> bool {
        fq_value(self.transmission_key_s) == reduce(self.transmission_key@)
    }

    /// Puts an address together, taking the field form of the transmission
    /// key from its bytes.
    pub fn from_components(
        diversified_generator: Element,
        transmission_key: [u8; 32],
        clue_key: [u8; 32],
    ) -> (r: Address)
        ensures
            r.diversified_generator == diversified_generator,
            r.transmission_key == transmission_key,
            r.clue_key == clue_key,
            r.consistent(),
    {
        let transmission_key_s = fq_from_le_bytes_mod_order(&transmission_key);
        Address { diversified_generator, transmission_key, clue_key, transmission_key_s }
    }
}

impl Note {
    /// What the commitment to this note binds.
    pub open spec fn opening(&self) -> Opening {
        Opening {
            note_blinding: fq_value(self.note_blinding),
            amount: self.value.amount as nat,
            asset_id: fq_value(self.value.asset_id),
            diversified_generator: element_encoding(self.address.diversified_generator),
            transmission_key_s: fq_value(self.address.transmission_key_s),
            clue_key: reduce(self.address.clue_key@),
        }
    }
}

} // verus!
