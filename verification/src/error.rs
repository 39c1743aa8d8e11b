//! How building a circuit can fail.

use vstd::prelude::*;
use ark_relations::r1cs::SynthesisError;

verus! {

/// A failed step of circuit construction. Nothing is retried: the circuit
/// under construction is to be thrown away.
#[derive(Clone, Copy, Debug)]
pub enum SynthesisFailure {
    /// Bytes that were to be a group element do not encode one.
    InvalidEncoding,
    /// A variable is not one of the circuit, or it carries no value where the
    /// circuit assigns values.
    Unassigned,
    /// The constraint system refused an allocation or a constraint.
    Backend(SynthesisError),
}

/// What a step that the constraint system decides comes to: its result as it
/// is, its refusal as a failure of the backend.
pub fn backend_outcome<T>(r: Result<T, SynthesisError>) -> (out: Result<T, SynthesisFailure>)
    ensures
        out == (match r {
            Ok(v) => Ok::<T, SynthesisFailure>(v),
            Err(e) => Err(SynthesisFailure::Backend(e)),
        }),
{
    match r {
        Ok(v) => Ok(v),
        Err(e) => Err(SynthesisFailure::Backend(e)),
    }
}

} // verus!
