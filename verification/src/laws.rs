//! What holds of the gadgets taken together.

use vstd::prelude::*;
use crate::backend::grown;
use crate::backend::Circuit;
use crate::backend::FqVar;
use crate::circuit::PointVar;
use crate::derive::derived_nullifier;
use crate::field::le_value;
use crate::field::modulus;
use crate::gadgets::AddressVar;
use crate::gadgets::NoteVar;
use crate::mode::may_be_public;
use crate::mode::supports;
use crate::mode::Kind;
use crate::mode::Mode;
use crate::note::commitment_inputs;
use crate::note::hash_3_of;
use crate::note::hash_6_of;
use crate::note::note_commitment;
use crate::note::nullifier;
use crate::note::nullifier_inputs;
use crate::note::Address;
use crate::note::Note;
use crate::note::Opening;
use crate::separator::notecommit_separator;
use crate::separator::nullifier_separator;

verus! {

/// Two notes in circuits that open as one and the same note have the same
/// commitment, and it is the commitment to that note.
pub proof fn law_same_note_same_commitment(note: Note, first: NoteVar, second: NoteVar)
    requires
        first.opening() == Some(note.opening()),
        second.opening() == Some(note.opening()),
    ensures
        first.commitment() == second.commitment(),
        first.commitment() == Some(note_commitment(note.opening())),
{
}

/// Deriving a nullifier twice from the same key, commitment and position
/// gives the same nullifier, and it is the one that the three determine
/// outside a circuit.
pub proof fn law_same_inputs_same_nullifier(
    nullifier_key: nat,
    commitment: nat,
    position: nat,
    first: Option<nat>,
    second: Option<nat>,
)
    requires
        first == derived_nullifier(Some(nullifier_key), Some(commitment), Some(position)),
        second == derived_nullifier(Some(nullifier_key), Some(commitment), Some(position)),
    ensures
        first == second,
        first == Some(nullifier(nullifier_key, commitment, position)),
{
}

/// Every part of a note tells in its commitment: two openings that differ in
/// the blinding, the amount, the asset, the diversified generator, the
/// transmission key or the clue key have different commitments, unless the
/// hash itself gives one value for the two different inputs.
pub proof fn law_commitment_binds_every_part(a: Opening, b: Opening)
    requires
        a != b,
        hash_6_of(notecommit_separator(), commitment_inputs(a)) == hash_6_of(
            notecommit_separator(),
            commitment_inputs(b),
        ) ==> commitment_inputs(a) == commitment_inputs(b),
    ensures
        note_commitment(a) != note_commitment(b),
{
    if commitment_inputs(a) == commitment_inputs(b) {
        assert(a.note_blinding == commitment_inputs(a)[0]);
        assert(a.amount == commitment_inputs(a)[1]);
        assert(a.asset_id == commitment_inputs(a)[2]);
        assert(a.diversified_generator == commitment_inputs(a)[3]);
        assert(a.transmission_key_s == commitment_inputs(a)[4]);
        assert(a.clue_key == commitment_inputs(a)[5]);
        assert(b.note_blinding == commitment_inputs(b)[0]);
        assert(b.amount == commitment_inputs(b)[1]);
        assert(b.asset_id == commitment_inputs(b)[2]);
        assert(b.diversified_generator == commitment_inputs(b)[3]);
        assert(b.transmission_key_s == commitment_inputs(b)[4]);
        assert(b.clue_key == commitment_inputs(b)[5]);
        assert(a == b);
    }
}

/// The key, the commitment and the position each tell in the nullifier: two
/// triples that differ in one of them have different nullifiers, unless the
/// hash itself gives one value for the two different inputs.
pub proof fn law_nullifier_binds_every_part(
    key: nat,
    commitment: nat,
    position: nat,
    other_key: nat,
    other_commitment: nat,
    other_position: nat,
)
    requires
        key != other_key || commitment != other_commitment || position != other_position,
        hash_3_of(nullifier_separator(), nullifier_inputs(key, commitment, position))
            == hash_3_of(
            nullifier_separator(),
            nullifier_inputs(other_key, other_commitment, other_position),
        ) ==> nullifier_inputs(key, commitment, position) == nullifier_inputs(
            other_key,
            other_commitment,
            other_position,
        ),
    ensures
        nullifier(key, commitment, position) != nullifier(
            other_key,
            other_commitment,
            other_position,
        ),
{
    let a = nullifier_inputs(key, commitment, position);
    let b = nullifier_inputs(other_key, other_commitment, other_position);
    if a == b {
        assert(key == a[0] && commitment == a[1] && position == a[2]);
        assert(other_key == b[0] && other_commitment == b[1] && other_position == b[2]);
    }
}

/// The commitment and the nullifier are hashes under separators that differ,
/// each a field element of its own.
pub proof fn law_derivations_are_separated()
    ensures
        notecommit_separator() != nullifier_separator(),
        notecommit_separator() < modulus(),
        nullifier_separator() < modulus(),
{
}

/// The modes of every kind, in full: no kind is ever a constant; a note
/// commitment is an input or a witness; a nullifier and a randomized
/// verification key are inputs and nothing else; every other kind is a
/// witness and nothing else. So only what may be public can be a public
/// input, and a constructor that asks for `supports(kind, mode)` leaves every
/// other mode out.
pub proof fn law_modes(kind: Kind, mode: Mode)
    ensures
        !supports(kind, Mode::Constant),
        supports(kind, Mode::Input) || supports(kind, Mode::Witness),
        supports(kind, Mode::Input) ==> may_be_public(kind),
        kind == Kind::NoteCommitment ==> (supports(kind, mode) <==> mode != Mode::Constant),
        kind == Kind::Nullifier || kind == Kind::RandomizedVerificationKey ==> (supports(
            kind,
            mode,
        ) <==> mode == Mode::Input),
        !may_be_public(kind) ==> (supports(kind, mode) <==> mode == Mode::Witness),
{
}

/// Where the field form of a transmission key is the one that its bytes
/// spell, and the bytes are a canonical encoding, the two transmission key
/// variables of the address in a circuit carry the same encoding.
pub proof fn law_address_consistency(address: Address, v: AddressVar, mode: Mode, c: Circuit)
    requires
        v.holds(address, mode, c),
        address.consistent(),
        le_value(address.transmission_key@) < modulus(),
    ensures
        v.transmission_key_s_var().value() == v.transmission_key_var().value(),
{
}

/// A variable that is ready in a circuit stays ready while operations make
/// the circuit grow.
pub proof fn law_ready_stays(before: Circuit, after: Circuit, inputs: nat)
    requires
        grown(before, after, inputs),
    ensures
        forall|v: FqVar| v.ready(before) ==> #[trigger] v.ready(after),
        forall|v: PointVar| v.ready(before) ==> #[trigger] v.ready(after),
{
}

} // verus!
