//! Spend authorization in a circuit: the authorization key, the randomizer
//! of one proof, and the randomized verification key that the two give.

use vstd::prelude::*;
use decaf377::Fr;
use crate::backend::alloc_bytes;
use crate::backend::alloc_element;
use crate::backend::allocated;
use crate::backend::bytes_are_constant;
use crate::backend::bytes_share;
use crate::backend::bytes_have_value;
use crate::backend::bytes_var_belongs;
use crate::backend::bytes_to_bits_le;
use crate::backend::bytes_var_value;
use crate::backend::compress_to_field;
use crate::backend::decaf_add;
use crate::backend::decaf_valid_encoding;
use crate::backend::decompress;
use crate::backend::double_and_add;
use crate::backend::element_add;
use crate::backend::fr_bytes;
use crate::backend::fr_to_bytes;
use crate::backend::generator_element;
use crate::backend::generator_encoding;
use crate::backend::grown;
use crate::backend::inputs_made;
use crate::backend::is_setup;
use crate::backend::same_circuit;
use crate::backend::scalar_mul;
use crate::backend::scalar_mul_le;
use crate::backend::BoolVar;
use crate::backend::BytesVar;
use crate::backend::Circuit;
use crate::backend::FqVar;
use crate::circuit::PointVar;
use crate::derive::compared;
use crate::derive::same_field;
use crate::error::SynthesisFailure;
use crate::field::all_zero;
use crate::field::bits_le;
use crate::field::le_value;
use crate::field::lemma_zero_bytes_have_no_bit;
use crate::mode::supports;
use crate::mode::Kind;
use crate::mode::Mode;

verus! {

/// The randomized key: the authorization key plus the generator times the
/// scalar that the randomizer's bytes spell, bit by bit from the least
/// significant.
pub open spec fn randomized(key: nat, randomizer: Seq<u8>) -> nat {
    decaf_add(key, scalar_mul_le(generator_encoding(), bits_le(randomizer)))
}

/// Double-and-add over bits that are all clear leaves the sum as it was.
pub proof fn lemma_clear_bits_add_nothing(acc: nat, multiple: nat, bits: Seq<bool>)
    requires
        forall|i: int| 0 <= i < bits.len() ==> !bits[i],
    ensures
        double_and_add(acc, multiple, bits) == acc,
    decreases bits.len(),
{
    if bits.len() > 0 {
        let rest = bits.skip(1);
        assert forall|i: int| 0 <= i < rest.len() implies !rest[i] by {
            assert(rest[i] == bits[i + 1]);
        }
        lemma_clear_bits_add_nothing(acc, decaf_add(multiple, multiple), rest);
    }
}

/// Decodes a key and allocates the group element that it encodes.
fn allocate_key(c: &mut Circuit, key: &[u8; 32], mode: Mode) -> (r: Result<
    PointVar,
    SynthesisFailure,
>)
    requires
        mode != Mode::Constant,
    ensures
        grown(*old(c), *final(c), inputs_made(r is Ok, mode)),
        final(c).violated() == old(c).violated(),
        r is Ok <==> old(c).live() && decaf_valid_encoding(key@),
        r matches Err(SynthesisFailure::InvalidEncoding) <==> !decaf_valid_encoding(key@),
        r matches Err(e) ==> e is InvalidEncoding || e is Backend,
        r matches Ok(v) ==> v.value() == allocated(le_value(key@), mode, *old(c)) && v.ready(
            *final(c),
        ),
{
    let point = match decompress(key) {
        Ok(p) => p,
        Err(_) => {
            return Err(SynthesisFailure::InvalidEncoding);
        },
    };
    PointVar::new_variable(c, point, mode)
}

/// Compresses a group element of the circuit to the field element that
/// encodes it. An element that is not ready in the circuit is reported, and
/// nothing is done.
fn compressed(c: &mut Circuit, element: &PointVar) -> (r: Result<FqVar, SynthesisFailure>)
    ensures
        same_circuit(*old(c), *final(c)),
        final(c).violated() == old(c).violated(),
        r is Ok <==> element.ready(*old(c)),
        r matches Ok(v) ==> v.value() == element.value() && v.ready(*final(c)),
        r matches Err(e) ==> e is Unassigned,
{
    if !element.ready_in(c) {
        return Err(SynthesisFailure::Unassigned);
    }
    match compress_to_field(c, element.raw()) {
        Ok(v) => Ok(v),
        Err(_) => Err(SynthesisFailure::Unassigned),
    }
}

/// The randomizer of one proof in a circuit: the scalar's canonical bytes,
/// each byte a witness of its own, ready to be taken apart into bits.
pub struct SpendAuthRandomizerVar {
    inner: BytesVar,
}

impl SpendAuthRandomizerVar {
    /// The variables that hold the bytes.
    pub closed spec fn var(&self) -> BytesVar {
        self.inner
    }

    /// The bytes, where the variables carry them.
    pub open spec fn value(&self) -> Option<Seq<u8>> {
        bytes_var_value(self.var())
    }

    /// The variables are variables of the circuit, with what it gives its
    /// variables: values exactly when it is not in setup mode.
    pub open spec fn ready(&self, c: Circuit) -> bool {
        bytes_var_belongs(self.var(), c) && (self.value() is Some <==> !c.in_setup())
    }

    /// Tells whether the variables are variables of the circuit, with what it
    /// gives its variables.
    pub fn ready_in(&self, c: &Circuit) -> (r: bool)
        ensures
            r == self.ready(*c),
    {
        (bytes_are_constant(&self.inner) || bytes_share(&self.inner, c)) && bytes_have_value(
            &self.inner,
        ) != is_setup(c)
    }

    /// Allocates a randomizer: 32 bytes, each of eight witness bits.
    /// Randomizers are witnesses.
    pub fn new_variable(c: &mut Circuit, randomizer: &Fr, mode: Mode) -> (r: Result<
        SpendAuthRandomizerVar,
        SynthesisFailure,
    >)
        requires
            supports(Kind::SpendAuthRandomizer, mode),
        ensures
            same_circuit(*old(c), *final(c)),
            final(c).violated() == old(c).violated(),
            r is Ok <==> old(c).live(),
            r is Ok ==> final(c).witnesses() == old(c).witnesses() + 256,
            r matches Ok(v) ==> v.value() == allocated(fr_bytes(*randomizer), mode, *old(c))
                && v.ready(*final(c)),
            r matches Err(e) ==> e is Backend,
    {
        let bytes = fr_to_bytes(randomizer);
        match alloc_bytes(c, &bytes) {
            Ok(inner) => Ok(SpendAuthRandomizerVar { inner }),
            Err(e) => Err(SynthesisFailure::Backend(e)),
        }
    }
}

/// A randomized verification key in a circuit: one group element.
pub struct RandomizedVerificationKey {
    inner: PointVar,
}

impl RandomizedVerificationKey {
    /// The variable that holds the key.
    pub closed spec fn var(&self) -> PointVar {
        self.inner
    }

    /// The encoding of the key, where the variable carries one.
    pub open spec fn value(&self) -> Option<nat> {
        self.var().value()
    }

    /// The key is a proper variable of the circuit, with what it gives its
    /// variables.
    pub open spec fn ready(&self, c: Circuit) -> bool {
        self.var().ready(c)
    }

    /// Tells whether the key is a proper variable of the circuit, with what
    /// it gives its variables.
    pub fn ready_in(&self, c: &Circuit) -> (r: bool)
        ensures
            r == self.ready(*c),
    {
        self.inner.ready_in(c)
    }

    /// Allocates a randomized verification key from the 32 bytes that encode
    /// it. A randomized verification key is a public input: the verifier
    /// supplies its encoding. Bytes that encode no group element are refused,
    /// and nothing is allocated.
    pub fn new_variable(c: &mut Circuit, key: &[u8; 32], mode: Mode) -> (r: Result<
        RandomizedVerificationKey,
        SynthesisFailure,
    >)
        requires
            supports(Kind::RandomizedVerificationKey, mode),
        ensures
            grown(*old(c), *final(c), inputs_made(r is Ok, mode)),
            final(c).violated() == old(c).violated(),
            r is Ok <==> old(c).live() && decaf_valid_encoding(key@),
            r matches Err(SynthesisFailure::InvalidEncoding) <==> !decaf_valid_encoding(key@),
            r matches Err(e) ==> e is InvalidEncoding || e is Backend,
            r matches Ok(v) ==> v.value() == allocated(le_value(key@), mode, *old(c)) && v.ready(
                *final(c),
            ),
    {
        match allocate_key(c, key, mode) {
            Ok(inner) => Ok(RandomizedVerificationKey { inner }),
            Err(e) => Err(e),
        }
    }

    /// The key.
    pub fn inner(&self) -> (r: PointVar)
        ensures
            r.var() == self.var().var(),
    {
        self.inner.duplicate()
    }

    /// The field element that encodes the key. It is there exactly when the
    /// key is ready in the circuit.
    pub fn compress_to_field(&self, c: &mut Circuit) -> (r: Result<FqVar, SynthesisFailure>)
        ensures
            same_circuit(*old(c), *final(c)),
            final(c).violated() == old(c).violated(),
            r is Ok <==> self.ready(*old(c)),
            r matches Ok(v) ==> v.value() == self.value() && v.ready(*final(c)),
            r matches Err(e) ==> e is Unassigned,
    {
        compressed(c, &self.inner)
    }

    /// A boolean that tells whether two compressions of this key agree. It
    /// is there exactly when this key is ready in the circuit.
    ///
    /// Both sides of the comparison are taken from `self`: `other` plays no
    /// part in it, and the boolean is true wherever it carries a value.
    pub fn is_eq(&self, c: &mut Circuit, other: &RandomizedVerificationKey) -> (r: Result<
        BoolVar,
        SynthesisFailure,
    >)
        ensures
            same_circuit(*old(c), *final(c)),
            final(c).violated() == old(c).violated(),
            r is Ok <==> self.ready(*old(c)),
            r matches Ok(v) ==> v.value() == compared(self.value(), self.value()) && v.operand(
                *final(c),
            ),
            r matches Err(e) ==> e is Unassigned,
    {
        let self_fq = compressed(c, &self.inner)?;
        let other_fq = compressed(c, &self.inner)?;
        same_field(c, &self_fq, &other_fq)
    }
}

/// A spend authorization key in a circuit: one group element.
pub struct AuthorizationKeyVar {
    inner: PointVar,
}

impl AuthorizationKeyVar {
    /// The variable that holds the key.
    pub closed spec fn var(&self) -> PointVar {
        self.inner
    }

    /// The encoding of the key, where the variable carries one.
    pub open spec fn value(&self) -> Option<nat> {
        self.var().value()
    }

    /// The key is a proper variable of the circuit, with what it gives its
    /// variables.
    pub open spec fn ready(&self, c: Circuit) -> bool {
        self.var().ready(c)
    }

    /// Tells whether the key is a proper variable of the circuit, with what
    /// it gives its variables.
    pub fn ready_in(&self, c: &Circuit) -> (r: bool)
        ensures
            r == self.ready(*c),
    {
        self.inner.ready_in(c)
    }

    /// Allocates an authorization key from the 32 bytes that encode it.
    /// Authorization keys are witnesses. Bytes that encode no group element
    /// are refused, and nothing is allocated.
    pub fn new_variable(c: &mut Circuit, key: &[u8; 32], mode: Mode) -> (r: Result<
        AuthorizationKeyVar,
        SynthesisFailure,
    >)
        requires
            supports(Kind::AuthorizationKey, mode),
        ensures
            same_circuit(*old(c), *final(c)),
            final(c).violated() == old(c).violated(),
            r is Ok <==> old(c).live() && decaf_valid_encoding(key@),
            r matches Err(SynthesisFailure::InvalidEncoding) <==> !decaf_valid_encoding(key@),
            r matches Err(e) ==> e is InvalidEncoding || e is Backend,
            r matches Ok(v) ==> v.value() == allocated(le_value(key@), mode, *old(c)) && v.ready(
                *final(c),
            ),
    {
        match allocate_key(c, key, mode) {
            Ok(inner) => Ok(AuthorizationKeyVar { inner }),
            Err(e) => Err(e),
        }
    }

    /// The key.
    pub fn inner(&self) -> (r: PointVar)
        ensures
            r.var() == self.var().var(),
    {
        self.inner.duplicate()
    }

    /// The field element that encodes the key. It is there exactly when the
    /// key is ready in the circuit.
    pub fn compress_to_field(&self, c: &mut Circuit) -> (r: Result<FqVar, SynthesisFailure>)
        ensures
            same_circuit(*old(c), *final(c)),
            final(c).violated() == old(c).violated(),
            r is Ok <==> self.ready(*old(c)),
            r matches Ok(v) ==> v.value() == self.value() && v.ready(*final(c)),
            r matches Err(e) ==> e is Unassigned,
    {
        compressed(c, &self.inner)
    }

    /// Randomizes the key: adds to it the generator, as a constant of the
    /// circuit, times the randomizer, whose bytes are taken apart into bits
    /// for a double-and-add. With the zero randomizer the key comes back.
    ///
    /// The randomized key is there exactly when the key and the randomizer
    /// are ready in the circuit; where one is not, that is reported and
    /// nothing is done. Nothing becomes public, and what the circuit demands
    /// of the new variables holds of them.
    pub fn randomize(&self, c: &mut Circuit, spend_auth_randomizer: &SpendAuthRandomizerVar) -> (r:
        Result<RandomizedVerificationKey, SynthesisFailure>)
        ensures
            same_circuit(*old(c), *final(c)),
            final(c).violated() == old(c).violated(),
            r is Ok <==> self.ready(*old(c)) && spend_auth_randomizer.ready(*old(c)),
            r matches Ok(v) ==> {
                &&& v.ready(*final(c))
                &&& v.value() == (match (self.value(), spend_auth_randomizer.value()) {
                    (Some(key), Some(bytes)) => Some(randomized(key, bytes)),
                    _ => None,
                })
                &&& (spend_auth_randomizer.value() matches Some(bytes) && all_zero(bytes))
                    ==> v.value() == self.value()
            },
            r matches Err(e) ==> e is Unassigned,
    {
        if !self.ready_in(c) || !spend_auth_randomizer.ready_in(c) {
            return Err(SynthesisFailure::Unassigned);
        }
        let generator = match alloc_element(c, generator_element(), Mode::Constant) {
            Ok(v) => v,
            Err(_) => {
                return Err(SynthesisFailure::Unassigned);
            },
        };
        let bits = match bytes_to_bits_le(&spend_auth_randomizer.inner, c) {
            Ok(v) => v,
            Err(_) => {
                return Err(SynthesisFailure::Unassigned);
            },
        };
        let multiple = match scalar_mul(c, &generator, &bits) {
            Ok(v) => v,
            Err(_) => {
                return Err(SynthesisFailure::Unassigned);
            },
        };
        proof {
            if let Some(bytes) = spend_auth_randomizer.value() {
                if all_zero(bytes) {
                    lemma_zero_bytes_have_no_bit(bytes);
                    lemma_clear_bits_add_nothing(0, generator_encoding(), bits_le(bytes));
                }
            }
        }
        let sum = element_add(c, self.inner.raw(), &multiple);
        Ok(RandomizedVerificationKey { inner: PointVar::adopt(sum) })
    }
}

} // verus!
