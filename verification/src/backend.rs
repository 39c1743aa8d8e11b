//! The constraint backend, the field and group primitives and the hash, as
//! this library uses them. Nothing in this file is proved: each function
//! makes one call into another crate, and its contract says what that crate's
//! source shows of the call. The types at the top carry that crate's values
//! through verified code, which cannot look inside them.
//!
//! A variable belongs to the constraint system it was allocated in, and the
//! contracts of the operations ask that their operands belong to the circuit
//! they are given. A circuit's synthesis mode is set when it is made and
//! before anything is allocated in it, and never after.

use vstd::prelude::*;
use std::rc::Rc;
use ark_r1cs_std::alloc::AllocVar;
use ark_r1cs_std::alloc::AllocationMode;
use ark_r1cs_std::boolean::Boolean;
use ark_r1cs_std::eq::EqGadget;
use ark_r1cs_std::fields::fp::FpVar;
use ark_r1cs_std::groups::CurveVar;
use ark_r1cs_std::uint8::UInt8;
use ark_r1cs_std::R1CSVar;
use ark_r1cs_std::ToBitsGadget;
use ark_relations::r1cs::ConstraintSystem;
use ark_relations::r1cs::ConstraintSystemRef;
use ark_relations::r1cs::SynthesisError;
use ark_relations::r1cs::SynthesisMode;
use decaf377::r1cs::ElementVar;
use decaf377::Element;
use decaf377::Encoding;
use decaf377::EncodingError;
use decaf377::Fq;
use decaf377::Fr;
use crate::field::bits_le;
use crate::field::le_value;
use crate::field::modulus;
use crate::field::reduce;
use crate::mode::Mode;

verus! {

/// An element of the field that circuits are written over: `decaf377::Fq`.
#[verifier::external_type_specification]
#[verifier::external_body]
pub struct ExFq(Fq);

/// A scalar of the decaf377 group: `decaf377::Fr`.
#[verifier::external_type_specification]
#[verifier::external_body]
pub struct ExFr(Fr);

/// An element of the decaf377 group: `decaf377::Element`.
#[verifier::external_type_specification]
#[verifier::external_body]
pub struct ExElement(Element);

/// A group element in a circuit: `decaf377::r1cs::ElementVar`.
#[verifier::external_type_specification]
#[verifier::external_body]
pub struct ExElementVar(ElementVar);

/// Why bytes encode no group element: `decaf377::EncodingError`.
#[verifier::external_type_specification]
#[verifier::external_body]
pub struct ExEncodingError(EncodingError);

/// Why the constraint system refused: `ark_relations::r1cs::SynthesisError`.
#[verifier::external_type_specification]
#[verifier::external_body]
pub struct ExSynthesisError(SynthesisError);

/// A constraint system under construction: `ConstraintSystemRef` over the
/// circuit field. Every gadget operation takes it by `&mut`, so that one
/// writer at a time is what the signatures say.
#[verifier::external_body]
pub struct Circuit {
    pub cs: ConstraintSystemRef<Fq>,
}

/// A field element in a circuit: `FpVar` over the circuit field.
#[verifier::external_body]
pub struct FqVar {
    pub inner: FpVar<Fq>,
}

/// A boolean in a circuit: `Boolean` over the circuit field.
#[verifier::external_body]
pub struct BoolVar {
    pub inner: Boolean<Fq>,
}

/// A byte string in a circuit, each byte a `UInt8` of its own.
#[verifier::external_body]
pub struct BytesVar {
    pub inner: Vec<UInt8<Fq>>,
}

/// A bit string in a circuit, each bit a `Boolean` of its own.
#[verifier::external_body]
pub struct BitsVar {
    pub inner: Vec<Boolean<Fq>>,
}

/// The integer below the modulus that a field element is.
pub uninterp spec fn fq_value(x: Fq) -> nat;

/// The 32 bytes that `Fr::to_bytes` gives for a scalar.
pub uninterp spec fn fr_bytes(x: Fr) -> Seq<u8>;

/// The field element that `Element::vartime_compress_to_field` gives for a
/// group element, as an integer. Two elements are equal exactly when this
/// agrees; the identity has 0 and the conventional generator has 8.
pub uninterp spec fn element_encoding(e: Element) -> nat;

/// Whether `Encoding::vartime_decompress` accepts the 32 bytes.
pub uninterp spec fn decaf_valid_encoding(bytes: Seq<u8>) -> bool;

/// The encoding of the sum of the two group elements with these encodings.
pub uninterp spec fn decaf_add(a: nat, b: nat) -> nat;

/// What the three-input hash gives for a domain separator and three field
/// elements.
pub uninterp spec fn poseidon_hash_3(separator: nat, a: nat, b: nat, c: nat) -> nat;

/// What the six-input hash gives for a domain separator and six field
/// elements.
pub uninterp spec fn poseidon_hash_6(
    separator: nat,
    a: nat,
    b: nat,
    c: nat,
    d: nat,
    e: nat,
    f: nat,
) -> nat;

/// Whether the circuit is backed by a constraint system at all
/// (`ConstraintSystemRef::is_none` says no).
pub uninterp spec fn circuit_is_live(c: Circuit) -> bool;

/// What `ConstraintSystemRef::is_in_setup_mode` says: the circuit records
/// constraints only, and its variables carry no values.
pub uninterp spec fn circuit_is_setup(c: Circuit) -> bool;

/// What `ConstraintSystemRef::num_instance_variables` says: how many values
/// the verifier is to supply, the constant one counted in.
pub uninterp spec fn circuit_inputs(c: Circuit) -> nat;

/// Whether `ConstraintSystemRef::is_satisfied` says `Ok(false)`: the values
/// assigned so far break a constraint.
pub uninterp spec fn circuit_is_violated(c: Circuit) -> bool;

/// What `ConstraintSystemRef::num_witness_variables` says: how many values
/// the prover alone supplies.
pub uninterp spec fn circuit_witnesses(c: Circuit) -> nat;

/// What `R1CSVar::value` gives for the variable, as an integer; `None` where
/// it has no value.
pub uninterp spec fn fq_var_value(v: FqVar) -> Option<nat>;

/// What `R1CSVar::is_constant` says of the variable: no constraint system
/// holds it.
pub uninterp spec fn fq_var_is_constant(v: FqVar) -> bool;

/// What `R1CSVar::is_constant` says of the variable.
pub uninterp spec fn element_var_is_constant(v: ElementVar) -> bool;

/// Whether the variable holds a group element in decoded form, as
/// `ElementVar::new_variable` leaves a constant or a witness and as the group
/// operations leave their results. `R1CSVar::cs`, `is_constant` and `value`
/// then only read.
pub uninterp spec fn element_var_sound(v: ElementVar) -> bool;

/// Whether the variable holds a group element as its encoding alone, as
/// `ElementVar::new_variable` leaves a public input: the element is yet to be
/// decoded in the circuit.
pub uninterp spec fn element_var_encoded(v: ElementVar) -> bool;

/// What `R1CSVar::is_constant` says of the flag.
pub uninterp spec fn bool_var_is_constant(v: BoolVar) -> bool;

/// What `R1CSVar::is_constant` says of the bytes.
pub uninterp spec fn bytes_var_is_constant(v: BytesVar) -> bool;

/// What `R1CSVar::is_constant` says of the bits.
pub uninterp spec fn bits_var_is_constant(v: BitsVar) -> bool;

/// Whether the constraint system that `R1CSVar::cs` gives for the variable is
/// the one that backs the circuit. A constant has none.
pub uninterp spec fn fq_var_shares(v: FqVar, c: Circuit) -> bool;

/// Whether the constraint system that `R1CSVar::cs` gives for the variable is
/// the one that backs the circuit. A constant has none.
pub uninterp spec fn element_var_shares(v: ElementVar, c: Circuit) -> bool;

/// Whether the constraint system that `R1CSVar::cs` gives for the flag is the
/// one that backs the circuit. A constant has none.
pub uninterp spec fn bool_var_shares(v: BoolVar, c: Circuit) -> bool;

/// Whether the constraint system that `R1CSVar::cs` gives for the bytes is
/// the one that backs the circuit. Constants have none.
pub uninterp spec fn bytes_var_shares(v: BytesVar, c: Circuit) -> bool;

/// Whether the constraint system that `R1CSVar::cs` gives for the bits is the
/// one that backs the circuit. Constants have none.
pub uninterp spec fn bits_var_shares(v: BitsVar, c: Circuit) -> bool;

/// The encoding of what `R1CSVar::value` gives for the variable; `None` where
/// it has no value.
pub uninterp spec fn element_var_value(v: ElementVar) -> Option<nat>;

/// What `R1CSVar::value` gives for the variable; `None` where it has no value.
pub uninterp spec fn bool_var_value(v: BoolVar) -> Option<bool>;

/// The bytes that the variables carry; `None` where they have no value.
pub uninterp spec fn bytes_var_value(v: BytesVar) -> Option<Seq<u8>>;

/// The bits that the variables carry; `None` where they have no value.
pub uninterp spec fn bits_var_value(v: BitsVar) -> Option<Seq<bool>>;

/// The encoding of the identity element.
pub open spec fn identity_encoding() -> nat {
    0
}

/// The encoding of the conventional generator.
pub open spec fn generator_encoding() -> nat {
    8
}

/// A field variable belongs to a circuit if it is a constant, which belongs
/// everywhere, or a variable of the constraint system that backs the circuit.
pub open spec fn fq_var_belongs(v: FqVar, c: Circuit) -> bool {
    fq_var_is_constant(v) || fq_var_shares(v, c)
}

/// A group element variable belongs to a circuit if it is a constant or a
/// variable of the constraint system that backs the circuit.
pub open spec fn element_var_belongs(v: ElementVar, c: Circuit) -> bool {
    element_var_is_constant(v) || element_var_shares(v, c)
}

/// A flag belongs to a circuit if it is a constant or a variable of the
/// constraint system that backs the circuit.
pub open spec fn bool_var_belongs(v: BoolVar, c: Circuit) -> bool {
    bool_var_is_constant(v) || bool_var_shares(v, c)
}

/// Bytes belong to a circuit if they are constants or variables of the
/// constraint system that backs the circuit.
pub open spec fn bytes_var_belongs(v: BytesVar, c: Circuit) -> bool {
    bytes_var_is_constant(v) || bytes_var_shares(v, c)
}

/// Bits belong to a circuit if they are constants or variables of the
/// constraint system that backs the circuit.
pub open spec fn bits_var_belongs(v: BitsVar, c: Circuit) -> bool {
    bits_var_is_constant(v) || bits_var_shares(v, c)
}

/// What an operation needs of what an operand carries: a value, unless the
/// circuit carries none.
pub open spec fn usable<T>(value: Option<T>, c: Circuit) -> bool {
    value is Some || circuit_is_setup(c)
}

/// A field variable that an operation of the circuit can take.
pub open spec fn fq_operand(v: FqVar, c: Circuit) -> bool {
    fq_var_belongs(v, c) && usable(fq_var_value(v), c)
}

/// A group element variable that an operation of the circuit can take.
pub open spec fn element_operand(v: ElementVar, c: Circuit) -> bool {
    element_var_sound(v) && element_var_belongs(v, c) && usable(element_var_value(v), c)
}

/// A flag that an operation of the circuit can take.
pub open spec fn bool_operand(v: BoolVar, c: Circuit) -> bool {
    bool_var_belongs(v, c) && usable(bool_var_value(v), c)
}

/// A bit string that an operation of the circuit can take.
pub open spec fn bits_operand(v: BitsVar, c: Circuit) -> bool {
    bits_var_belongs(v, c) && usable(bits_var_value(v), c)
}

/// What a freshly allocated variable carries: the value it was given, unless
/// it is a proper variable of a circuit that carries no values.
pub open spec fn allocated<T>(value: T, mode: Mode, c: Circuit) -> Option<T> {
    if mode != Mode::Constant && circuit_is_setup(c) {
        None
    } else {
        Some(value)
    }
}

/// The same variables are of the circuit before and after.
pub open spec fn members_kept(before: Circuit, after: Circuit) -> bool {
    &&& forall|v: FqVar|
        #![trigger fq_var_shares(v, after)]
        #![trigger fq_var_shares(v, before)]
        fq_var_shares(v, after) == fq_var_shares(v, before)
    &&& forall|v: ElementVar|
        #![trigger element_var_shares(v, after)]
        #![trigger element_var_shares(v, before)]
        element_var_shares(v, after) == element_var_shares(v, before)
    &&& forall|v: BoolVar|
        #![trigger bool_var_shares(v, after)]
        #![trigger bool_var_shares(v, before)]
        bool_var_shares(v, after) == bool_var_shares(v, before)
    &&& forall|v: BytesVar|
        #![trigger bytes_var_shares(v, after)]
        #![trigger bytes_var_shares(v, before)]
        bytes_var_shares(v, after) == bytes_var_shares(v, before)
    &&& forall|v: BitsVar|
        #![trigger bits_var_shares(v, after)]
        #![trigger bits_var_shares(v, before)]
        bits_var_shares(v, after) == bits_var_shares(v, before)
}

/// An operation touches neither what backs the circuit nor its mode, leaves
/// every variable where it belongs, and makes so many new public inputs.
pub open spec fn grown(before: Circuit, after: Circuit, inputs: nat) -> bool {
    &&& circuit_is_live(after) == circuit_is_live(before)
    &&& circuit_is_setup(after) == circuit_is_setup(before)
    &&& circuit_inputs(after) == circuit_inputs(before) + inputs
    &&& members_kept(before, after)
}

/// An operation touches neither what backs the circuit nor its mode, leaves
/// every variable where it belongs, and makes nothing public.
pub open spec fn same_circuit(before: Circuit, after: Circuit) -> bool {
    grown(before, after, 0)
}

/// How many public inputs an allocation in that mode makes where it succeeds.
pub open spec fn inputs_made(ok: bool, mode: Mode) -> nat {
    if ok && mode == Mode::Input {
        1
    } else {
        0
    }
}

/// How many witnesses the allocation of one field element in that mode makes
/// where it succeeds.
pub open spec fn witnesses_made(ok: bool, mode: Mode) -> nat {
    if ok && mode == Mode::Witness {
        1
    } else {
        0
    }
}

/// Double-and-add over a little-endian bit string, the sum so far in `acc`
/// and the current power-of-two multiple of the base in `multiple`.
pub open spec fn double_and_add(acc: nat, multiple: nat, bits: Seq<bool>) -> nat
    decreases bits.len(),
{
    if bits.len() == 0 {
        acc
    } else {
        double_and_add(
            if bits[0] {
                decaf_add(acc, multiple)
            } else {
                acc
            },
            decaf_add(multiple, multiple),
            bits.skip(1),
        )
    }
}

/// The multiple of `base` by the scalar that `bits` spells.
pub open spec fn scalar_mul_le(base: nat, bits: Seq<bool>) -> nat {
    double_and_add(identity_encoding(), base, bits)
}

/// `ConstraintSystem::new_ref`: a fresh constraint system. It starts in
/// proving mode, with no constraint and so none broken, with the constant
/// one as its only input and with no witness.
#[verifier::external_body]
pub(crate) fn fresh_circuit() -> (c: Circuit)
    ensures
        circuit_is_live(c),
        !circuit_is_setup(c),
        !circuit_is_violated(c),
        circuit_inputs(c) == 1,
        circuit_witnesses(c) == 0,
{
    Circuit { cs: ConstraintSystem::new_ref() }
}

/// `ConstraintSystemRef::set_mode` with `SynthesisMode::Setup`, for a circuit
/// in which nothing was allocated yet. A circuit in setup mode assigns no
/// values, so nothing can break a constraint.
#[verifier::external_body]
pub(crate) fn enter_setup(c: &mut Circuit)
    requires
        circuit_inputs(*old(c)) == 1,
        circuit_witnesses(*old(c)) == 0,
    ensures
        circuit_is_live(*final(c)) == circuit_is_live(*old(c)),
        circuit_is_live(*old(c)) ==> circuit_is_setup(*final(c)),
        circuit_inputs(*final(c)) == circuit_inputs(*old(c)),
        circuit_witnesses(*final(c)) == circuit_witnesses(*old(c)),
        members_kept(*old(c), *final(c)),
        !circuit_is_violated(*final(c)),
{
    c.cs.set_mode(SynthesisMode::Setup)
}

/// `ConstraintSystemRef::is_none`: whether nothing backs the circuit.
#[verifier::external_body]
pub(crate) fn is_none(c: &Circuit) -> (r: bool)
    ensures
        r == !circuit_is_live(*c),
{
    c.cs.is_none()
}

/// `ConstraintSystemRef::is_in_setup_mode`.
#[verifier::external_body]
pub(crate) fn is_setup(c: &Circuit) -> (r: bool)
    ensures
        r == circuit_is_setup(*c),
{
    c.cs.is_in_setup_mode()
}

/// `Fq::from` a `u128`: the field element that is that integer. Every `u128`
/// is below the modulus.
#[verifier::external_body]
pub(crate) fn fq_from_u128(x: u128) -> (r: Fq)
    ensures
        fq_value(r) == x,
{
    Fq::from(x)
}

/// `Fq::from` a `u64`: the field element that is that integer.
#[verifier::external_body]
pub(crate) fn fq_from_u64(x: u64) -> (r: Fq)
    ensures
        fq_value(r) == x,
{
    Fq::from(x)
}

/// `Fq::from_le_bytes_mod_order`: the little-endian integer, reduced.
#[verifier::external_body]
pub(crate) fn fq_from_le_bytes_mod_order(bytes: &[u8; 32]) -> (r: Fq)
    ensures
        fq_value(r) == reduce(bytes@),
{
    Fq::from_le_bytes_mod_order(&bytes[..])
}

/// `Fr::to_bytes`: the scalar's canonical little-endian bytes.
#[verifier::external_body]
pub(crate) fn fr_to_bytes(x: &Fr) -> (r: [u8; 32])
    ensures
        r@ == fr_bytes(*x),
{
    x.to_bytes()
}

/// `Encoding::vartime_decompress`: the group element that 32 bytes encode.
/// It accepts canonical encodings only, and the element it gives compresses
/// back to the bytes it came from.
#[verifier::external_body]
pub(crate) fn decompress(bytes: &[u8; 32]) -> (r: Result<Element, EncodingError>)
    ensures
        r is Ok <==> decaf_valid_encoding(bytes@),
        r matches Ok(e) ==> element_encoding(e) == le_value(bytes@) && le_value(bytes@)
            < modulus(),
{
    Encoding(*bytes).vartime_decompress()
}

/// `Element::default`: the identity, whose encoding is zero.
#[verifier::external_body]
pub(crate) fn identity_element() -> (e: Element)
    ensures
        element_encoding(e) == identity_encoding(),
{
    Element::default()
}

/// `Element::GENERATOR`: the conventional generator, whose encoding is the
/// byte 8 followed by zeros.
#[verifier::external_body]
pub(crate) fn generator_element() -> (e: Element)
    ensures
        element_encoding(e) == generator_encoding(),
{
    Element::GENERATOR
}

/// `FpVar::new_variable`. A constant is made without the constraint system;
/// an input or a witness is refused exactly when there is none. The variable
/// carries the value unless the circuit is in setup mode. An input is one
/// more public input, a witness one more witness; no constraint is added.
#[verifier::external_body]
pub(crate) fn alloc_fq(c: &mut Circuit, x: Fq, mode: Mode) -> (r: Result<FqVar, SynthesisError>)
    ensures
        grown(*old(c), *final(c), inputs_made(r is Ok, mode)),
        circuit_witnesses(*final(c)) == circuit_witnesses(*old(c)) + witnesses_made(
            r is Ok,
            mode,
        ),
        circuit_is_violated(*final(c)) == circuit_is_violated(*old(c)),
        r is Ok <==> mode == Mode::Constant || circuit_is_live(*old(c)),
        r matches Ok(v) ==> {
            &&& fq_var_value(v) == allocated(fq_value(x), mode, *old(c))
            &&& fq_var_is_constant(v) == (mode == Mode::Constant)
            &&& fq_var_belongs(v, *final(c))
        },
{
    let m = match mode {
        Mode::Constant => AllocationMode::Constant,
        Mode::Input => AllocationMode::Input,
        Mode::Witness => AllocationMode::Witness,
    };
    FpVar::new_variable(c.cs.clone(), || Ok(x), m).map(|inner| FqVar { inner })
}

/// `ElementVar::new_variable`. A constant is made without the constraint
/// system; an input or a witness is refused exactly when there is none. The
/// variable carries the element unless the circuit is in setup mode. An input
/// is one more public input, the element's encoding, and is left to be
/// decoded; a witness makes nothing public. What is demanded of the new
/// variable holds of the element.
#[verifier::external_body]
pub(crate) fn alloc_element(c: &mut Circuit, e: Element, mode: Mode) -> (r: Result<
    ElementVar,
    SynthesisError,
>)
    ensures
        grown(*old(c), *final(c), inputs_made(r is Ok, mode)),
        circuit_is_violated(*final(c)) == circuit_is_violated(*old(c)),
        r is Ok <==> mode == Mode::Constant || circuit_is_live(*old(c)),
        r matches Ok(v) ==> {
            &&& element_var_value(v) == allocated(element_encoding(e), mode, *old(c))
            &&& element_var_is_constant(v) == (mode == Mode::Constant)
            &&& element_var_belongs(v, *final(c))
            &&& mode != Mode::Input ==> element_var_sound(v)
            &&& mode == Mode::Input ==> element_var_encoded(v)
        },
{
    let m = match mode {
        Mode::Constant => AllocationMode::Constant,
        Mode::Input => AllocationMode::Input,
        Mode::Witness => AllocationMode::Witness,
    };
    ElementVar::new_variable(c.cs.clone(), || Ok(e), m)
}

/// `UInt8::new_witness_vec`: one witness byte for each byte given, each of
/// eight witness bits, refused exactly when there is no constraint system.
/// The variables carry the bytes unless the circuit is in setup mode.
#[verifier::external_body]
pub(crate) fn alloc_bytes(c: &mut Circuit, bytes: &[u8; 32]) -> (r: Result<
    BytesVar,
    SynthesisError,
>)
    ensures
        same_circuit(*old(c), *final(c)),
        circuit_is_violated(*final(c)) == circuit_is_violated(*old(c)),
        r is Ok <==> circuit_is_live(*old(c)),
        r is Ok ==> circuit_witnesses(*final(c)) == circuit_witnesses(*old(c)) + 256,
        r matches Ok(v) ==> {
            &&& bytes_var_value(v) == allocated(bytes@, Mode::Witness, *old(c))
            &&& !bytes_var_is_constant(v)
            &&& bytes_var_shares(v, *final(c))
        },
{
    UInt8::new_witness_vec(c.cs.clone(), &bytes[..]).map(|inner| BytesVar { inner })
}

/// `Boolean::new_variable`. A constant is made without the constraint system;
/// an input or a witness is refused exactly when there is none. The variable
/// carries the flag unless the circuit is in setup mode. An input is one more
/// public input.
#[verifier::external_body]
pub(crate) fn alloc_bool(c: &mut Circuit, flag: bool, mode: Mode) -> (r: Result<
    BoolVar,
    SynthesisError,
>)
    ensures
        grown(*old(c), *final(c), inputs_made(r is Ok, mode)),
        circuit_is_violated(*final(c)) == circuit_is_violated(*old(c)),
        r is Ok <==> mode == Mode::Constant || circuit_is_live(*old(c)),
        r matches Ok(v) ==> {
            &&& bool_var_value(v) == allocated(flag, mode, *old(c))
            &&& bool_var_is_constant(v) == (mode == Mode::Constant)
            &&& bool_var_belongs(v, *final(c))
        },
{
    let m = match mode {
        Mode::Constant => AllocationMode::Constant,
        Mode::Input => AllocationMode::Input,
        Mode::Witness => AllocationMode::Witness,
    };
    Boolean::new_variable(c.cs.clone(), || Ok(flag), m).map(|inner| BoolVar { inner })
}

/// `R1CSVar::is_constant` of an `FpVar`.
#[verifier::external_body]
pub(crate) fn fq_is_constant(v: &FqVar) -> (r: bool)
    ensures
        r == fq_var_is_constant(*v),
{
    v.inner.is_constant()
}

/// `R1CSVar::cs` of an `ElementVar` that holds its element as an encoding
/// alone, called for what it does on the way: it decodes the element in the
/// circuit. What is demanded of the decoded element holds of it. The same
/// variable comes back, decoded.
#[verifier::external_body]
pub(crate) fn decode_element(c: &mut Circuit, v: ElementVar) -> (r: ElementVar)
    requires
        element_var_encoded(v),
        element_var_belongs(v, *old(c)),
        !element_var_is_constant(v),
    ensures
        same_circuit(*old(c), *final(c)),
        circuit_is_violated(*final(c)) == circuit_is_violated(*old(c)),
        element_var_sound(r),
        element_var_value(r) == element_var_value(v),
        element_var_belongs(r, *final(c)),
        !element_var_is_constant(r),
{
    let _ = v.cs();
    v
}

/// `R1CSVar::is_constant` of a `Boolean`.
#[verifier::external_body]
pub(crate) fn bool_is_constant(v: &BoolVar) -> (r: bool)
    ensures
        r == bool_var_is_constant(*v),
{
    v.inner.is_constant()
}

/// `R1CSVar::is_constant` of a vector of `UInt8`.
#[verifier::external_body]
pub(crate) fn bytes_are_constant(v: &BytesVar) -> (r: bool)
    ensures
        r == bytes_var_is_constant(*v),
{
    v.inner.is_constant()
}

/// `R1CSVar::cs` of an `FpVar`, held against the circuit's constraint system
/// with `Rc::ptr_eq`.
#[verifier::external_body]
pub(crate) fn fq_shares(v: &FqVar, c: &Circuit) -> (r: bool)
    ensures
        r == fq_var_shares(*v, *c),
{
    match (v.inner.cs(), &c.cs) {
        (ConstraintSystemRef::CS(a), ConstraintSystemRef::CS(b)) => Rc::ptr_eq(&a, b),
        _ => false,
    }
}

/// `R1CSVar::cs` of an `ElementVar` that holds its element decoded, held
/// against the circuit's constraint system with `Rc::ptr_eq`.
#[verifier::external_body]
pub(crate) fn element_shares(v: &ElementVar, c: &Circuit) -> (r: bool)
    requires
        element_var_sound(*v),
    ensures
        r == element_var_shares(*v, *c),
{
    match (v.cs(), &c.cs) {
        (ConstraintSystemRef::CS(a), ConstraintSystemRef::CS(b)) => Rc::ptr_eq(&a, b),
        _ => false,
    }
}

/// `R1CSVar::cs` of a `Boolean`, held against the circuit's constraint system
/// with `Rc::ptr_eq`.
#[verifier::external_body]
pub(crate) fn bool_shares(v: &BoolVar, c: &Circuit) -> (r: bool)
    ensures
        r == bool_var_shares(*v, *c),
{
    match (v.inner.cs(), &c.cs) {
        (ConstraintSystemRef::CS(a), ConstraintSystemRef::CS(b)) => Rc::ptr_eq(&a, b),
        _ => false,
    }
}

/// `R1CSVar::cs` of a vector of `UInt8`, held against the circuit's
/// constraint system with `Rc::ptr_eq`.
#[verifier::external_body]
pub(crate) fn bytes_share(v: &BytesVar, c: &Circuit) -> (r: bool)
    ensures
        r == bytes_var_shares(*v, *c),
{
    match (v.inner.cs(), &c.cs) {
        (ConstraintSystemRef::CS(a), ConstraintSystemRef::CS(b)) => Rc::ptr_eq(&a, b),
        _ => false,
    }
}

/// `R1CSVar::value` of an `FpVar`, asked only whether it gives a value.
#[verifier::external_body]
pub(crate) fn fq_has_value(v: &FqVar) -> (r: bool)
    ensures
        r == (fq_var_value(*v) is Some),
{
    v.inner.value().is_ok()
}

/// `R1CSVar::value` of an `ElementVar` that holds its element decoded, asked
/// only whether it gives a value.
#[verifier::external_body]
pub(crate) fn element_has_value(v: &ElementVar) -> (r: bool)
    requires
        element_var_sound(*v),
    ensures
        r == (element_var_value(*v) is Some),
{
    v.value().is_ok()
}

/// `R1CSVar::value` of a `Boolean`, asked only whether it gives a value.
#[verifier::external_body]
pub(crate) fn bool_has_value(v: &BoolVar) -> (r: bool)
    ensures
        r == (bool_var_value(*v) is Some),
{
    v.inner.value().is_ok()
}

/// `R1CSVar::value` of a vector of `UInt8`, asked only whether it gives a
/// value.
#[verifier::external_body]
pub(crate) fn bytes_have_value(v: &BytesVar) -> (r: bool)
    ensures
        r == (bytes_var_value(*v) is Some),
{
    v.inner.value().is_ok()
}

/// `Clone::clone` of an `FpVar`: the same variable.
#[verifier::external_body]
pub(crate) fn clone_fq_var(v: &FqVar) -> (r: FqVar)
    ensures
        r == *v,
{
    FqVar { inner: v.inner.clone() }
}

/// `Clone::clone` of an `ElementVar`: the same variable.
#[verifier::external_body]
pub(crate) fn clone_element_var(v: &ElementVar) -> (r: ElementVar)
    ensures
        r == *v,
{
    v.clone()
}

/// `ElementVar::compress_to_field`, the circuit's counterpart of
/// `Element::vartime_compress_to_field`: the field element that encodes the
/// group element. It is there for every element that is no constant.
#[verifier::external_body]
pub(crate) fn compress_to_field(c: &mut Circuit, e: &ElementVar) -> (r: Result<
    FqVar,
    SynthesisError,
>)
    requires
        element_operand(*e, *old(c)),
    ensures
        same_circuit(*old(c), *final(c)),
        circuit_is_violated(*final(c)) == circuit_is_violated(*old(c)),
        !element_var_is_constant(*e) ==> r is Ok,
        r matches Ok(v) ==> {
            &&& fq_var_value(v) == element_var_value(*e)
            &&& fq_var_belongs(v, *final(c))
            &&& !element_var_is_constant(*e) ==> !fq_var_is_constant(v)
        },
{
    e.compress_to_field().map(|inner| FqVar { inner })
}

/// `poseidon377::r1cs::hash_3`, for a separator that is a constant and
/// operands of which one at least is none. It always returns a variable; the
/// variable carries the hash of the values where all four are there.
#[verifier::external_body]
pub(crate) fn hash_3(c: &mut Circuit, separator: &FqVar, a: &FqVar, b: &FqVar, d: &FqVar) -> (r:
    Result<FqVar, SynthesisError>)
    requires
        fq_operand(*separator, *old(c)),
        fq_operand(*a, *old(c)),
        fq_operand(*b, *old(c)),
        fq_operand(*d, *old(c)),
        fq_var_is_constant(*separator),
        !fq_var_is_constant(*a) || !fq_var_is_constant(*b) || !fq_var_is_constant(*d),
    ensures
        same_circuit(*old(c), *final(c)),
        circuit_is_violated(*final(c)) == circuit_is_violated(*old(c)),
        r is Ok,
        r matches Ok(v) ==> {
            &&& fq_var_value(v) == (match (
                fq_var_value(*separator),
                fq_var_value(*a),
                fq_var_value(*b),
                fq_var_value(*d),
            ) {
                (Some(s), Some(x), Some(y), Some(z)) => Some(poseidon_hash_3(s, x, y, z)),
                _ => None,
            })
            &&& fq_var_belongs(v, *final(c))
            &&& !fq_var_is_constant(v)
        },
{
    let value = (a.inner.clone(), b.inner.clone(), d.inner.clone());
    poseidon377::r1cs::hash_3(c.cs.clone(), &separator.inner, value).map(|inner| FqVar { inner })
}

/// `poseidon377::r1cs::hash_6`, for a separator that is a constant and
/// operands of which one at least is none. It always returns a variable; the
/// variable carries the hash of the values where all seven are there.
#[verifier::external_body]
pub(crate) fn hash_6(c: &mut Circuit, separator: &FqVar, inputs: [&FqVar; 6]) -> (r: Result<
    FqVar,
    SynthesisError,
>)
    requires
        fq_operand(*separator, *old(c)),
        forall|i: int| 0 <= i < 6 ==> fq_operand(*#[trigger] inputs[i], *old(c)),
        fq_var_is_constant(*separator),
        exists|i: int| 0 <= i < 6 && !fq_var_is_constant(*#[trigger] inputs[i]),
    ensures
        same_circuit(*old(c), *final(c)),
        circuit_is_violated(*final(c)) == circuit_is_violated(*old(c)),
        r is Ok,
        r matches Ok(v) ==> {
            &&& fq_var_value(v) == (match (
                fq_var_value(*separator),
                fq_var_value(*inputs[0]),
                fq_var_value(*inputs[1]),
                fq_var_value(*inputs[2]),
                fq_var_value(*inputs[3]),
                fq_var_value(*inputs[4]),
                fq_var_value(*inputs[5]),
            ) {
                (Some(s), Some(x0), Some(x1), Some(x2), Some(x3), Some(x4), Some(x5)) => Some(
                    poseidon_hash_6(s, x0, x1, x2, x3, x4, x5),
                ),
                _ => None,
            })
            &&& fq_var_belongs(v, *final(c))
            &&& !fq_var_is_constant(v)
        },
{
    let [a, b, d, e, f, g] = inputs.map(|v| v.inner.clone());
    poseidon377::r1cs::hash_6(c.cs.clone(), &separator.inner, (a, b, d, e, f, g)).map(
        |inner| FqVar { inner },
    )
}

/// `EqGadget::is_eq` of two `FpVar`s: a boolean that carries whether the two
/// values are equal, where both are there.
#[verifier::external_body]
pub(crate) fn fq_is_eq(c: &mut Circuit, a: &FqVar, b: &FqVar) -> (r: Result<
    BoolVar,
    SynthesisError,
>)
    requires
        fq_operand(*a, *old(c)),
        fq_operand(*b, *old(c)),
    ensures
        same_circuit(*old(c), *final(c)),
        circuit_is_violated(*final(c)) == circuit_is_violated(*old(c)),
        r is Ok,
        r matches Ok(v) ==> {
            &&& bool_var_value(v) == (match (fq_var_value(*a), fq_var_value(*b)) {
                (Some(x), Some(y)) => Some(x == y),
                _ => None,
            })
            &&& bool_var_belongs(v, *final(c))
        },
{
    a.inner.is_eq(&b.inner).map(|inner| BoolVar { inner })
}

/// `ToBitsGadget::to_bits_le` of a vector of `UInt8`: the very bits that the
/// bytes are made of, those of each byte in turn, least significant first.
/// It always succeeds.
#[verifier::external_body]
pub(crate) fn bytes_to_bits_le(bytes: &BytesVar, c: &Circuit) -> (r: Result<
    BitsVar,
    SynthesisError,
>)
    ensures
        r is Ok,
        r matches Ok(v) ==> {
            &&& bits_var_value(v) == (match bytes_var_value(*bytes) {
                Some(b) => Some(bits_le(b)),
                None => None,
            })
            &&& bits_var_shares(v, *c) == bytes_var_shares(*bytes, *c)
            &&& bits_var_is_constant(v) == bytes_var_is_constant(*bytes)
        },
{
    bytes.inner.to_bits_le().map(|inner| BitsVar { inner })
}

/// `CurveVar::scalar_mul_le` of a base that is a constant: double-and-add
/// from the identity, over the bits in order. It always succeeds.
#[verifier::external_body]
pub(crate) fn scalar_mul(c: &mut Circuit, base: &ElementVar, bits: &BitsVar) -> (r: Result<
    ElementVar,
    SynthesisError,
>)
    requires
        element_operand(*base, *old(c)),
        element_var_is_constant(*base),
        bits_operand(*bits, *old(c)),
    ensures
        same_circuit(*old(c), *final(c)),
        circuit_is_violated(*final(c)) == circuit_is_violated(*old(c)),
        r is Ok,
        r matches Ok(v) ==> {
            &&& element_var_value(v) == (match (
                element_var_value(*base),
                bits_var_value(*bits),
            ) {
                (Some(b), Some(s)) => Some(scalar_mul_le(b, s)),
                _ => None,
            })
            &&& element_var_belongs(v, *final(c))
            &&& element_var_sound(v)
        },
{
    base.scalar_mul_le(bits.inner.iter())
}

/// `Add::add` of two `ElementVar`s: the group sum, a constant only where
/// both are. Adding the identity changes nothing.
#[verifier::external_body]
pub(crate) fn element_add(c: &mut Circuit, a: &ElementVar, b: &ElementVar) -> (r: ElementVar)
    requires
        element_operand(*a, *old(c)),
        element_operand(*b, *old(c)),
    ensures
        same_circuit(*old(c), *final(c)),
        circuit_is_violated(*final(c)) == circuit_is_violated(*old(c)),
        element_var_value(r) == (match (element_var_value(*a), element_var_value(*b)) {
            (Some(x), Some(y)) => Some(decaf_add(x, y)),
            _ => None,
        }),
        element_var_value(*b) == Some(identity_encoding()) ==> element_var_value(r)
            == element_var_value(*a),
        element_var_is_constant(r) == (element_var_is_constant(*a) && element_var_is_constant(
            *b,
        )),
        element_var_belongs(r, *final(c)),
        element_var_sound(r),
{
    a.clone() + b
}

/// `EqGadget::conditional_enforce_not_equal` of two `ElementVar`s. It refuses
/// two constants that are equal and nothing else. Where it returns `Ok`, the
/// circuit has come to demand that the two elements differ unless the flag
/// is false; nothing else has changed in what it demands.
#[verifier::external_body]
pub(crate) fn enforce_not_equal_if(
    c: &mut Circuit,
    a: &ElementVar,
    b: &ElementVar,
    enforce: &BoolVar,
) -> (r: Result<(), SynthesisError>)
    requires
        element_operand(*a, *old(c)),
        element_operand(*b, *old(c)),
        bool_operand(*enforce, *old(c)),
    ensures
        same_circuit(*old(c), *final(c)),
        r is Ok <==> !(element_var_is_constant(*a) && element_var_is_constant(*b)
            && element_var_value(*a) == element_var_value(*b)),
        r is Ok ==> circuit_is_violated(*final(c)) == (circuit_is_violated(*old(c)) || (
        !circuit_is_setup(*old(c)) && bool_var_value(*enforce) == Some(true)
            && element_var_value(*a) is Some && element_var_value(*a) == element_var_value(*b))),
        r is Err ==> circuit_is_violated(*final(c)) == circuit_is_violated(*old(c)),
{
    a.conditional_enforce_not_equal(b, &enforce.inner)
}

} // verus!
