//! The two derivations inside a circuit: the commitment to a note, and the
//! nullifier of a committed note at a position.

use vstd::prelude::*;
use decaf377::Fq;
use crate::backend::alloc_fq;
use crate::backend::allocated;
use crate::backend::compress_to_field;
use crate::backend::fq_from_le_bytes_mod_order;
use crate::backend::fq_from_u64;
use crate::backend::fq_is_eq;
use crate::backend::fq_value;
use crate::backend::grown;
use crate::backend::hash_3;
use crate::backend::hash_6;
use crate::backend::inputs_made;
use crate::backend::same_circuit;
use crate::backend::witnesses_made;
use crate::backend::BoolVar;
use crate::backend::Circuit;
use crate::backend::FqVar;
use crate::error::SynthesisFailure;
use crate::gadgets::place;
use crate::gadgets::NoteVar;
use crate::mode::supports;
use crate::mode::Kind;
use crate::mode::Mode;
use crate::note::note_commitment;
use crate::note::nullifier;
use crate::separator::lemma_separator_bytes;
use crate::separator::NOTECOMMIT_DOMAIN_SEP;
use crate::separator::NULLIFIER_DOMAIN_SEP;

verus! {

/// What comparing two carried values gives: their equality where both are
/// there, nothing otherwise.
pub open spec fn compared(a: Option<nat>, b: Option<nat>) -> Option<bool> {
    match (a, b) {
        (Some(x), Some(y)) => Some(x == y),
        _ => None,
    }
}

/// The nullifier that the circuit derives from what three variables carry:
/// a value where all three are there, nothing otherwise.
pub open spec fn derived_nullifier(
    nullifier_key: Option<nat>,
    commitment: Option<nat>,
    position: Option<nat>,
) -> Option<nat> {
    match (nullifier_key, commitment, position) {
        (Some(nk), Some(cm), Some(pos)) => Some(nullifier(nk, cm, pos)),
        _ => None,
    }
}

/// Compares two field variables of the circuit. Variables that are not ready
/// in the circuit are reported, and nothing is done.
pub(crate) fn same_field(c: &mut Circuit, a: &FqVar, b: &FqVar) -> (r: Result<
    BoolVar,
    SynthesisFailure,
>)
    ensures
        same_circuit(*old(c), *final(c)),
        final(c).violated() == old(c).violated(),
        r is Ok <==> a.ready(*old(c)) && b.ready(*old(c)),
        r matches Ok(v) ==> v.value() == compared(a.value(), b.value()) && v.operand(*final(c)),
        r matches Err(e) ==> e is Unassigned,
{
    if !a.ready_in(c) || !b.ready_in(c) {
        return Err(SynthesisFailure::Unassigned);
    }
    match fq_is_eq(c, a, b) {
        Ok(v) => Ok(v),
        Err(_) => Err(SynthesisFailure::Unassigned),
    }
}

/// A note commitment in a circuit: one field element.
pub struct NoteCommitmentVar {
    inner: FqVar,
}

impl NoteCommitmentVar {
    /// The variable that holds the commitment.
    pub closed spec fn var(&self) -> FqVar {
        self.inner
    }

    /// The commitment, where the variable carries one.
    pub open spec fn value(&self) -> Option<nat> {
        self.var().value()
    }

    /// Allocates a note commitment: as a public input where it is checked
    /// against a published one, as a witness where it is an intermediate.
    pub fn new_variable(c: &mut Circuit, commitment: Fq, mode: Mode) -> (r: Result<
        NoteCommitmentVar,
        SynthesisFailure,
    >)
        requires
            supports(Kind::NoteCommitment, mode),
        ensures
            grown(*old(c), *final(c), inputs_made(r is Ok, mode)),
            final(c).witnesses() == old(c).witnesses() + witnesses_made(r is Ok, mode),
            final(c).violated() == old(c).violated(),
            r is Ok <==> old(c).live(),
            r matches Ok(v) ==> v.value() == allocated(fq_value(commitment), mode, *old(c))
                && v.var().ready(*final(c)),
            r matches Err(e) ==> e is Backend,
    {
        match place(c, commitment, mode) {
            Ok(inner) => Ok(NoteCommitmentVar { inner }),
            Err(e) => Err(e),
        }
    }

    /// The commitment.
    pub fn inner(&self) -> (r: FqVar)
        ensures
            r == self.var(),
    {
        self.inner.clone()
    }

    /// A boolean that tells whether the two commitments are the same field
    /// element. It is there exactly when both are ready in the circuit.
    pub fn is_eq(&self, c: &mut Circuit, other: &NoteCommitmentVar) -> (r: Result<
        BoolVar,
        SynthesisFailure,
    >)
        ensures
            same_circuit(*old(c), *final(c)),
            final(c).violated() == old(c).violated(),
            r is Ok <==> self.var().ready(*old(c)) && other.var().ready(*old(c)),
            r matches Ok(v) ==> v.value() == compared(self.value(), other.value()) && v.operand(
                *final(c),
            ),
            r matches Err(e) ==> e is Unassigned,
    {
        same_field(c, &self.inner, &other.inner)
    }
}

impl NoteVar {
    /// The commitment to the note in the circuit, where its variables carry
    /// values.
    pub open spec fn commitment(&self) -> Option<nat> {
        match self.opening() {
            Some(o) => Some(note_commitment(o)),
            None => None,
        }
    }

    /// Derives the commitment to the note: the six-input hash, under the note
    /// commitment separator as a constant of the circuit, of the blinding,
    /// the amount, the asset identifier, the compressed diversified
    /// generator, the field form of the transmission key and the clue key.
    ///
    /// It is there exactly when the note is ready in the circuit; a note that
    /// is not is reported, and nothing is done. Nothing becomes public, and
    /// what the circuit demands of the new variables holds of them.
    pub fn commit(&self, c: &mut Circuit) -> (r: Result<NoteCommitmentVar, SynthesisFailure>)
        ensures
            same_circuit(*old(c), *final(c)),
            final(c).violated() == old(c).violated(),
            r is Ok <==> self.ready(*old(c)),
            r matches Ok(v) ==> v.var().ready(*final(c)) && v.value() == self.commitment(),
            r matches Err(e) ==> e is Unassigned,
    {
        if !self.ready_in(c) {
            return Err(SynthesisFailure::Unassigned);
        }
        proof {
            lemma_separator_bytes();
        }
        let separator = match alloc_fq(
            c,
            fq_from_le_bytes_mod_order(&NOTECOMMIT_DOMAIN_SEP),
            Mode::Constant,
        ) {
            Ok(v) => v,
            Err(_) => {
                return Err(SynthesisFailure::Unassigned);
            },
        };
        let generator = self.diversified_generator();
        let compressed = match compress_to_field(c, generator.raw()) {
            Ok(v) => v,
            Err(_) => {
                return Err(SynthesisFailure::Unassigned);
            },
        };
        let note_blinding = self.note_blinding();
        let amount = self.amount();
        let asset_id = self.asset_id();
        let transmission_key_s = self.transmission_key_s();
        let clue_key = self.clue_key();
        let inputs = [
            &note_blinding,
            &amount,
            &asset_id,
            &compressed,
            &transmission_key_s,
            &clue_key,
        ];
        assert(!crate::backend::fq_var_is_constant(*inputs[0]));
        match hash_6(c, &separator, inputs) {
            Ok(inner) => Ok(NoteCommitmentVar { inner }),
            Err(_) => Err(SynthesisFailure::Unassigned),
        }
    }
}

/// The position of a note in the commitment tree, in a circuit: one field
/// element.
pub struct PositionVar {
    inner: FqVar,
}

impl PositionVar {
    /// The variable that holds the position.
    pub closed spec fn var(&self) -> FqVar {
        self.inner
    }

    /// The position, where the variable carries one.
    pub open spec fn value(&self) -> Option<nat> {
        self.var().value()
    }

    /// Allocates a position. Positions are witnesses.
    pub fn new_variable(c: &mut Circuit, position: u64, mode: Mode) -> (r: Result<
        PositionVar,
        SynthesisFailure,
    >)
        requires
            supports(Kind::Position, mode),
        ensures
            same_circuit(*old(c), *final(c)),
            final(c).witnesses() == old(c).witnesses() + witnesses_made(r is Ok, mode),
            final(c).violated() == old(c).violated(),
            r is Ok <==> old(c).live(),
            r matches Ok(v) ==> v.value() == allocated(position as nat, mode, *old(c))
                && v.var().ready(*final(c)),
            r matches Err(e) ==> e is Backend,
    {
        match place(c, fq_from_u64(position), mode) {
            Ok(inner) => Ok(PositionVar { inner }),
            Err(e) => Err(e),
        }
    }

    /// The position.
    pub fn inner(&self) -> (r: FqVar)
        ensures
            r == self.var(),
    {
        self.inner.clone()
    }
}

/// A nullifier key in a circuit: one field element.
pub struct NullifierKeyVar {
    inner: FqVar,
}

impl NullifierKeyVar {
    /// The variable that holds the key.
    pub closed spec fn var(&self) -> FqVar {
        self.inner
    }

    /// The key, where the variable carries one.
    pub open spec fn value(&self) -> Option<nat> {
        self.var().value()
    }

    /// Allocates a nullifier key. Nullifier keys are witnesses.
    pub fn new_variable(c: &mut Circuit, nullifier_key: Fq, mode: Mode) -> (r: Result<
        NullifierKeyVar,
        SynthesisFailure,
    >)
        requires
            supports(Kind::NullifierKey, mode),
        ensures
            same_circuit(*old(c), *final(c)),
            final(c).witnesses() == old(c).witnesses() + witnesses_made(r is Ok, mode),
            final(c).violated() == old(c).violated(),
            r is Ok <==> old(c).live(),
            r matches Ok(v) ==> v.value() == allocated(fq_value(nullifier_key), mode, *old(c))
                && v.var().ready(*final(c)),
            r matches Err(e) ==> e is Backend,
    {
        match place(c, nullifier_key, mode) {
            Ok(inner) => Ok(NullifierKeyVar { inner }),
            Err(e) => Err(e),
        }
    }

    /// The key.
    pub fn inner(&self) -> (r: FqVar)
        ensures
            r == self.var(),
    {
        self.inner.clone()
    }

    /// Derives the nullifier of the note with that commitment at that
    /// position: the three-input hash, under the nullifier separator as a
    /// constant of the circuit, of the key, the commitment and the position.
    ///
    /// It is there exactly when the three are ready in the circuit; where
    /// one is not, that is reported and nothing is done. Nothing becomes
    /// public, and what the circuit demands of the new variables holds of
    /// them.
    pub fn derive_nullifier(
        &self,
        c: &mut Circuit,
        position: &PositionVar,
        note_commitment: &NoteCommitmentVar,
    ) -> (r: Result<NullifierVar, SynthesisFailure>)
        ensures
            same_circuit(*old(c), *final(c)),
            final(c).violated() == old(c).violated(),
            r is Ok <==> self.var().ready(*old(c)) && position.var().ready(*old(c))
                && note_commitment.var().ready(*old(c)),
            r matches Ok(v) ==> {
                &&& v.var().ready(*final(c))
                &&& v.value() == derived_nullifier(
                    self.value(),
                    note_commitment.value(),
                    position.value(),
                )
            },
            r matches Err(e) ==> e is Unassigned,
    {
        if !self.inner.ready_in(c) || !position.inner.ready_in(c)
            || !note_commitment.inner.ready_in(c) {
            return Err(SynthesisFailure::Unassigned);
        }
        proof {
            lemma_separator_bytes();
        }
        let separator = match alloc_fq(
            c,
            fq_from_le_bytes_mod_order(&NULLIFIER_DOMAIN_SEP),
            Mode::Constant,
        ) {
            Ok(v) => v,
            Err(_) => {
                return Err(SynthesisFailure::Unassigned);
            },
        };
        match hash_3(c, &separator, &self.inner, &note_commitment.inner, &position.inner) {
            Ok(inner) => Ok(NullifierVar { inner }),
            Err(_) => Err(SynthesisFailure::Unassigned),
        }
    }
}

/// A nullifier in a circuit: one field element.
pub struct NullifierVar {
    inner: FqVar,
}

impl NullifierVar {
    /// The variable that holds the nullifier.
    pub closed spec fn var(&self) -> FqVar {
        self.inner
    }

    /// The nullifier, where the variable carries one.
    pub open spec fn value(&self) -> Option<nat> {
        self.var().value()
    }

    /// Allocates a nullifier. Nullifiers are public inputs: the verifier
    /// holds them against the set of spent notes.
    pub fn new_variable(c: &mut Circuit, nullifier: Fq, mode: Mode) -> (r: Result<
        NullifierVar,
        SynthesisFailure,
    >)
        requires
            supports(Kind::Nullifier, mode),
        ensures
            grown(*old(c), *final(c), inputs_made(r is Ok, mode)),
            final(c).witnesses() == old(c).witnesses(),
            final(c).violated() == old(c).violated(),
            r is Ok <==> old(c).live(),
            r matches Ok(v) ==> v.value() == allocated(fq_value(nullifier), mode, *old(c))
                && v.var().ready(*final(c)),
            r matches Err(e) ==> e is Backend,
    {
        match place(c, nullifier, mode) {
            Ok(inner) => Ok(NullifierVar { inner }),
            Err(e) => Err(e),
        }
    }

    /// The nullifier.
    pub fn inner(&self) -> (r: FqVar)
        ensures
            r == self.var(),
    {
        self.inner.clone()
    }

    /// A boolean that tells whether the two nullifiers are the same field
    /// element. It is there exactly when both are ready in the circuit.
    pub fn is_eq(&self, c: &mut Circuit, other: &NullifierVar) -> (r: Result<
        BoolVar,
        SynthesisFailure,
    >)
        ensures
            same_circuit(*old(c), *final(c)),
            final(c).violated() == old(c).violated(),
            r is Ok <==> self.var().ready(*old(c)) && other.var().ready(*old(c)),
            r matches Ok(v) ==> v.value() == compared(self.value(), other.value()) && v.operand(
                *final(c),
            ),
            r matches Err(e) ==> e is Unassigned,
    {
        same_field(c, &self.inner, &other.inner)
    }
}

} // verus!
