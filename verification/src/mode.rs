//! Allocation modes, and which of them each kind of circuit value accepts.

use vstd::prelude::*;

verus! {

/// The role of a circuit variable: a fixed constant, a value the verifier
/// knows, or a value only the prover knows.
#[derive(Clone, Copy, Debug, PartialEq, Eq, Structural)]
pub enum Mode {
    Constant,
    Input,
    Witness,
}

/// The kinds of value this library puts into a circuit.
#[derive(Clone, Copy, Debug, PartialEq, Eq, Structural)]
pub enum Kind {
    Amount,
    AssetId,
    Value,
    Address,
    Note,
    NoteCommitment,
    Position,
    NullifierKey,
    Nullifier,
    AuthorizationKey,
    RandomizedVerificationKey,
    SpendAuthRandomizer,
}

/// The privacy boundary: secrets are witnesses and nothing else, a nullifier
/// and a randomized verification key are public inputs and nothing else, and
/// a note commitment may be either. No kind is ever a constant.
pub open spec fn supports(kind: Kind, mode: Mode) -> bool {
    match kind {
        Kind::NoteCommitment => mode == Mode::Input || mode == Mode::Witness,
        Kind::Nullifier => mode == Mode::Input,
        Kind::RandomizedVerificationKey => mode == Mode::Input,
        _ => mode == Mode::Witness,
    }
}

/// Whether a value of that kind may be public.
pub open spec fn may_be_public(kind: Kind) -> bool {
    kind == Kind::NoteCommitment || kind == Kind::Nullifier || kind
        == Kind::RandomizedVerificationKey
}

impl Kind {
    /// Tells whether values of this kind can be allocated in `mode`. A caller
    /// that cannot rule an unsupported mode out beforehand asks here first.
    pub fn accepts(self, mode: Mode) -> (r: bool)
        ensures
            r == supports(self, mode),
    {
        match self {
            Kind::NoteCommitment => match mode {
                Mode::Constant => false,
                _ => true,
            },
            Kind::Nullifier | Kind::RandomizedVerificationKey => match mode {
                Mode::Input => true,
                _ => false,
            },
            _ => match mode {
                Mode::Witness => true,
                _ => false,
            },
        }
    }
}

} // verus!
