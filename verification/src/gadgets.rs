//! The parts of a note as circuit variables: amount, asset, value, address
//! and the note itself, and the check that a group element is not the
//! identity.

use vstd::prelude::*;
use decaf377::Fq;
use crate::backend::alloc_bool;
use crate::backend::alloc_element;
use crate::backend::alloc_fq;
use crate::backend::allocated;
use crate::backend::decaf_valid_encoding;
use crate::backend::decompress;
use crate::backend::element_encoding;
use crate::backend::enforce_not_equal_if;
use crate::backend::fq_from_le_bytes_mod_order;
use crate::backend::fq_from_u128;
use crate::backend::fq_value;
use crate::backend::grown;
use crate::backend::identity_element;
use crate::backend::identity_encoding;
use crate::backend::inputs_made;
use crate::backend::same_circuit;
use crate::backend::witnesses_made;
use crate::backend::BoolVar;
use crate::backend::Circuit;
use crate::backend::FqVar;
use crate::circuit::PointVar;
use crate::error::backend_outcome;
use crate::error::SynthesisFailure;
use crate::field::le_value;
use crate::field::reduce;
use crate::mode::supports;
use crate::mode::Kind;
use crate::mode::Mode;
use crate::note::Address;
use crate::note::Note;
use crate::note::Opening;
use crate::note::Value;

verus! {

/// Allocates one field element for a gadget, and says why where it cannot.
pub(crate) fn place(c: &mut Circuit, x: Fq, mode: Mode) -> (r: Result<FqVar, SynthesisFailure>)
    requires
        mode != Mode::Constant,
    ensures
        grown(*old(c), *final(c), inputs_made(r is Ok, mode)),
        final(c).witnesses() == old(c).witnesses() + witnesses_made(r is Ok, mode),
        final(c).violated() == old(c).violated(),
        r is Ok <==> old(c).live(),
        r matches Ok(v) ==> v.value() == allocated(fq_value(x), mode, *old(c)) && v.ready(
            *final(c),
        ),
        r matches Err(e) ==> e is Backend,
{
    backend_outcome(alloc_fq(c, x, mode))
}

impl BoolVar {
    /// Allocates a flag, as a constant, a public input or a witness.
    pub fn new_variable(c: &mut Circuit, flag: bool, mode: Mode) -> (r: Result<
        BoolVar,
        SynthesisFailure,
    >)
        ensures
            grown(*old(c), *final(c), inputs_made(r is Ok, mode)),
            final(c).violated() == old(c).violated(),
            r is Ok <==> mode == Mode::Constant || old(c).live(),
            r matches Ok(v) ==> v.value() == allocated(flag, mode, *old(c)) && v.operand(
                *final(c),
            ),
            r matches Err(e) ==> e is Backend,
    {
        backend_outcome(alloc_bool(c, flag, mode))
    }
}

/// Demands that `element` is not the identity, unless `enforce` is false.
///
/// The demand is a constraint: where the element is the identity and the flag
/// is true, the circuit is built all the same and no assignment satisfies it.
/// With a false flag nothing is demanded, whatever the element. A flag or an
/// element that the circuit cannot take is reported and changes nothing.
pub fn element_not_identity(c: &mut Circuit, enforce: &BoolVar, element: PointVar) -> (r: Result<
    (),
    SynthesisFailure,
>)
    ensures
        same_circuit(*old(c), *final(c)),
        r is Ok <==> enforce.operand(*old(c)) && element.ready(*old(c)),
        r matches Err(e) ==> e is Unassigned,
        r is Ok ==> final(c).violated() == (old(c).violated() || (!old(c).in_setup()
            && enforce.value() == Some(true) && element.value() == Some(identity_encoding()))),
        r is Err ==> final(c).violated() == old(c).violated(),
{
    if !enforce.operand_in(c) || !element.ready_in(c) {
        return Err(SynthesisFailure::Unassigned);
    }
    let identity = match alloc_element(c, identity_element(), Mode::Constant) {
        Ok(v) => v,
        Err(_) => {
            return Err(SynthesisFailure::Unassigned);
        },
    };
    match enforce_not_equal_if(c, &identity, element.raw(), enforce) {
        Ok(()) => Ok(()),
        Err(_) => Err(SynthesisFailure::Unassigned),
    }
}

/// An amount in a circuit: one field element, with no range check.
pub struct AmountVar {
    amount: FqVar,
}

impl AmountVar {
    /// The variable that holds the amount.
    pub closed spec fn var(&self) -> FqVar {
        self.amount
    }

    /// The amount, where the variable carries one.
    pub open spec fn value(&self) -> Option<nat> {
        self.var().value()
    }

    /// Allocates an amount. Amounts are witnesses.
    pub fn new_variable(c: &mut Circuit, amount: u128, mode: Mode) -> (r: Result<
        AmountVar,
        SynthesisFailure,
    >)
        requires
            supports(Kind::Amount, mode),
        ensures
            same_circuit(*old(c), *final(c)),
            final(c).witnesses() == old(c).witnesses() + witnesses_made(r is Ok, mode),
            final(c).violated() == old(c).violated(),
            r is Ok <==> old(c).live(),
            r matches Ok(v) ==> v.value() == allocated(amount as nat, mode, *old(c))
                && v.var().ready(*final(c)),
            r matches Err(e) ==> e is Backend,
    {
        match place(c, fq_from_u128(amount), mode) {
            Ok(amount) => Ok(AmountVar { amount }),
            Err(e) => Err(e),
        }
    }
}

/// An asset identifier in a circuit: one field element.
pub struct AssetIdVar {
    asset_id: FqVar,
}

impl AssetIdVar {
    /// The variable that holds the identifier.
    pub closed spec fn var(&self) -> FqVar {
        self.asset_id
    }

    /// The identifier, where the variable carries one.
    pub open spec fn value(&self) -> Option<nat> {
        self.var().value()
    }

    /// Allocates an asset identifier. Asset identifiers are witnesses.
    pub fn new_variable(c: &mut Circuit, asset_id: Fq, mode: Mode) -> (r: Result<
        AssetIdVar,
        SynthesisFailure,
    >)
        requires
            supports(Kind::AssetId, mode),
        ensures
            same_circuit(*old(c), *final(c)),
            final(c).witnesses() == old(c).witnesses() + witnesses_made(r is Ok, mode),
            final(c).violated() == old(c).violated(),
            r is Ok <==> old(c).live(),
            r matches Ok(v) ==> v.value() == allocated(fq_value(asset_id), mode, *old(c))
                && v.var().ready(*final(c)),
            r matches Err(e) ==> e is Backend,
    {
        match place(c, asset_id, mode) {
            Ok(asset_id) => Ok(AssetIdVar { asset_id }),
            Err(e) => Err(e),
        }
    }
}

/// A value in a circuit: an amount and an asset identifier.
pub struct ValueVar {
    amount: AmountVar,
    asset_id: AssetIdVar,
}

impl ValueVar {
    /// The variable that holds the amount.
    pub closed spec fn amount_var(&self) -> FqVar {
        self.amount.var()
    }

    /// The variable that holds the asset identifier.
    pub closed spec fn asset_id_var(&self) -> FqVar {
        self.asset_id.var()
    }

    /// Both are proper variables of the circuit, with what it gives its
    /// variables.
    pub open spec fn ready(&self, c: Circuit) -> bool {
        self.amount_var().ready(c) && self.asset_id_var().ready(c)
    }

    /// Allocates a value: the amount first, then the asset identifier.
    /// Values are witnesses.
    pub fn new_variable(c: &mut Circuit, value: &Value, mode: Mode) -> (r: Result<
        ValueVar,
        SynthesisFailure,
    >)
        requires
            supports(Kind::Value, mode),
        ensures
            same_circuit(*old(c), *final(c)),
            final(c).witnesses() == old(c).witnesses() + (if r is Ok {
                2nat
            } else {
                0nat
            }),
            final(c).violated() == old(c).violated(),
            r is Ok <==> old(c).live(),
            r matches Ok(v) ==> {
                &&& v.ready(*final(c))
                &&& v.amount_var().value() == allocated(value.amount as nat, mode, *old(c))
                &&& v.asset_id_var().value() == allocated(
                    fq_value(value.asset_id),
                    mode,
                    *old(c),
                )
            },
            r matches Err(e) ==> e is Backend,
    {
        let amount = AmountVar::new_variable(c, value.amount, mode)?;
        match AssetIdVar::new_variable(c, value.asset_id, mode) {
            Ok(asset_id) => Ok(ValueVar { amount, asset_id }),
            Err(e) => Err(e),
        }
    }

    /// Tells whether both are proper variables of the circuit, with what it
    /// gives its variables.
    pub fn ready_in(&self, c: &Circuit) -> (r: bool)
        ensures
            r == self.ready(*c),
    {
        self.amount.amount.ready_in(c) && self.asset_id.asset_id.ready_in(c)
    }

    /// The amount.
    pub fn amount(&self) -> (r: FqVar)
        ensures
            r == self.amount_var(),
    {
        self.amount.amount.clone()
    }

    /// The asset identifier.
    pub fn asset_id(&self) -> (r: FqVar)
        ensures
            r == self.asset_id_var(),
    {
        self.asset_id.asset_id.clone()
    }
}

/// An address in a circuit. The transmission key is there twice, as a group
/// element and as the field element that hashing takes, each a witness of its
/// own: the circuit does not tie the two together.
pub struct AddressVar {
    diversified_generator: PointVar,
    transmission_key: PointVar,
    transmission_key_s: FqVar,
    clue_key: FqVar,
}

impl AddressVar {
    /// The variable that holds the diversified generator.
    pub closed spec fn diversified_generator_var(&self) -> PointVar {
        self.diversified_generator
    }

    /// The variable that holds the transmission key as a group element.
    pub closed spec fn transmission_key_var(&self) -> PointVar {
        self.transmission_key
    }

    /// The variable that holds the transmission key as a field element.
    pub closed spec fn transmission_key_s_var(&self) -> FqVar {
        self.transmission_key_s
    }

    /// The variable that holds the clue key.
    pub closed spec fn clue_key_var(&self) -> FqVar {
        self.clue_key
    }

    /// All four are proper variables of the circuit, with what it gives its
    /// variables.
    pub open spec fn ready(&self, c: Circuit) -> bool {
        &&& self.diversified_generator_var().ready(c)
        &&& self.transmission_key_var().ready(c)
        &&& self.transmission_key_s_var().ready(c)
        &&& self.clue_key_var().ready(c)
    }

    /// The variables carry what `address` holds: the generator, the element
    /// that the transmission key bytes encode, the field form as it was
    /// given, and the clue key bytes reduced.
    pub open spec fn holds(&self, address: Address, mode: Mode, c: Circuit) -> bool {
        &&& self.diversified_generator_var().value() == allocated(
            element_encoding(address.diversified_generator),
            mode,
            c,
        )
        &&& self.transmission_key_var().value() == allocated(
            le_value(address.transmission_key@),
            mode,
            c,
        )
        &&& self.transmission_key_s_var().value() == allocated(
            fq_value(address.transmission_key_s),
            mode,
            c,
        )
        &&& self.clue_key_var().value() == allocated(reduce(address.clue_key@), mode, c)
    }

    /// Allocates an address: the diversified generator, the field form of the
    /// transmission key, its group element, the clue key, in this order.
    /// Addresses are witnesses.
    ///
    /// The transmission key bytes are decoded first, and nothing is allocated
    /// where they encode no group element. That the field form given in
    /// `address` is the one that the bytes spell is left to the caller: where
    /// it is, the two transmission key variables carry the same encoding.
    pub fn new_variable(c: &mut Circuit, address: &Address, mode: Mode) -> (r: Result<
        AddressVar,
        SynthesisFailure,
    >)
        requires
            supports(Kind::Address, mode),
        ensures
            same_circuit(*old(c), *final(c)),
            final(c).violated() == old(c).violated(),
            r is Ok <==> old(c).live() && decaf_valid_encoding(address.transmission_key@),
            r matches Err(SynthesisFailure::InvalidEncoding) <==> !decaf_valid_encoding(
                address.transmission_key@,
            ),
            r matches Err(e) ==> e is InvalidEncoding || e is Backend,
            r matches Ok(v) ==> {
                &&& v.ready(*final(c))
                &&& v.holds(*address, mode, *old(c))
                &&& address.consistent() ==> v.transmission_key_s_var().value()
                    == v.transmission_key_var().value()
            },
    {
        let point = match decompress(&address.transmission_key) {
            Ok(p) => p,
            Err(_) => {
                return Err(SynthesisFailure::InvalidEncoding);
            },
        };
        let diversified_generator = PointVar::new_variable(
            c,
            address.diversified_generator,
            mode,
        )?;
        let transmission_key_s = place(c, address.transmission_key_s, mode)?;
        let transmission_key = PointVar::new_variable(c, point, mode)?;
        match place(c, fq_from_le_bytes_mod_order(&address.clue_key), mode) {
            Ok(clue_key) => Ok(
                AddressVar {
                    diversified_generator,
                    transmission_key,
                    transmission_key_s,
                    clue_key,
                },
            ),
            Err(e) => Err(e),
        }
    }

    /// Tells whether all four are proper variables of the circuit, with what
    /// it gives its variables.
    pub fn ready_in(&self, c: &Circuit) -> (r: bool)
        ensures
            r == self.ready(*c),
    {
        self.diversified_generator.ready_in(c) && self.transmission_key.ready_in(c)
            && self.transmission_key_s.ready_in(c) && self.clue_key.ready_in(c)
    }

    /// The diversified generator.
    pub fn diversified_generator(&self) -> (r: PointVar)
        ensures
            r.var() == self.diversified_generator_var().var(),
    {
        self.diversified_generator.duplicate()
    }

    /// The transmission key, as a group element.
    pub fn transmission_key(&self) -> (r: PointVar)
        ensures
            r.var() == self.transmission_key_var().var(),
    {
        self.transmission_key.duplicate()
    }

    /// The transmission key, as a field element.
    pub fn transmission_key_s(&self) -> (r: FqVar)
        ensures
            r == self.transmission_key_s_var(),
    {
        self.transmission_key_s.clone()
    }

    /// The clue key.
    pub fn clue_key(&self) -> (r: FqVar)
        ensures
            r == self.clue_key_var(),
    {
        self.clue_key.clone()
    }
}

/// A note in a circuit: its value, its blinding and its address.
pub struct NoteVar {
    value: ValueVar,
    note_blinding: FqVar,
    address: AddressVar,
}

impl NoteVar {
    /// The variable that holds the amount.
    pub closed spec fn amount_var(&self) -> FqVar {
        self.value.amount_var()
    }

    /// The variable that holds the asset identifier.
    pub closed spec fn asset_id_var(&self) -> FqVar {
        self.value.asset_id_var()
    }

    /// The variable that holds the blinding.
    pub closed spec fn note_blinding_var(&self) -> FqVar {
        self.note_blinding
    }

    /// The address of the note.
    pub closed spec fn address_var(&self) -> AddressVar {
        self.address
    }

    /// Every variable of the note is a proper variable of the circuit, with
    /// what it gives its variables.
    pub open spec fn ready(&self, c: Circuit) -> bool {
        &&& self.amount_var().ready(c)
        &&& self.asset_id_var().ready(c)
        &&& self.note_blinding_var().ready(c)
        &&& self.address_var().ready(c)
    }

    /// What a commitment to the note in the circuit binds, where its
    /// variables carry values.
    pub open spec fn opening(&self) -> Option<Opening> {
        match (
            self.note_blinding_var().value(),
            self.amount_var().value(),
            self.asset_id_var().value(),
            self.address_var().diversified_generator_var().value(),
            self.address_var().transmission_key_s_var().value(),
            self.address_var().clue_key_var().value(),
        ) {
            (
                Some(note_blinding),
                Some(amount),
                Some(asset_id),
                Some(diversified_generator),
                Some(transmission_key_s),
                Some(clue_key),
            ) => Some(
                Opening {
                    note_blinding,
                    amount,
                    asset_id,
                    diversified_generator,
                    transmission_key_s,
                    clue_key,
                },
            ),
            _ => None,
        }
    }

    /// Allocates a note: the blinding, the value, the address, in this order.
    /// Notes are witnesses.
    ///
    /// In a proving circuit the note in the circuit opens as `note` does; in
    /// setup mode it carries no values.
    pub fn new_variable(c: &mut Circuit, note: &Note, mode: Mode) -> (r: Result<
        NoteVar,
        SynthesisFailure,
    >)
        requires
            supports(Kind::Note, mode),
        ensures
            same_circuit(*old(c), *final(c)),
            final(c).violated() == old(c).violated(),
            r is Ok <==> old(c).live() && decaf_valid_encoding(note.address.transmission_key@),
            !old(c).live() ==> r matches Err(SynthesisFailure::Backend(_)),
            old(c).live() ==> (r matches Err(SynthesisFailure::InvalidEncoding)
                <==> !decaf_valid_encoding(note.address.transmission_key@)),
            r matches Err(e) ==> e is InvalidEncoding || e is Backend,
            r matches Ok(v) ==> {
                &&& v.ready(*final(c))
                &&& v.address_var().holds(note.address, mode, *old(c))
                &&& v.opening() == (if old(c).in_setup() {
                    None
                } else {
                    Some(note.opening())
                })
            },
    {
        let note_blinding = place(c, note.note_blinding, mode)?;
        let value = ValueVar::new_variable(c, &note.value, mode)?;
        match AddressVar::new_variable(c, &note.address, mode) {
            Ok(address) => Ok(NoteVar { value, note_blinding, address }),
            Err(e) => Err(e),
        }
    }

    /// Tells whether every variable of the note is a proper variable of the
    /// circuit, with what it gives its variables.
    pub fn ready_in(&self, c: &Circuit) -> (r: bool)
        ensures
            r == self.ready(*c),
    {
        self.value.ready_in(c) && self.note_blinding.ready_in(c) && self.address.ready_in(c)
    }

    /// The amount.
    pub fn amount(&self) -> (r: FqVar)
        ensures
            r == self.amount_var(),
    {
        self.value.amount()
    }

    /// The asset identifier.
    pub fn asset_id(&self) -> (r: FqVar)
        ensures
            r == self.asset_id_var(),
    {
        self.value.asset_id()
    }

    /// The blinding.
    pub fn note_blinding(&self) -> (r: FqVar)
        ensures
            r == self.note_blinding_var(),
    {
        self.note_blinding.clone()
    }

    /// The diversified generator of the address.
    pub fn diversified_generator(&self) -> (r: PointVar)
        ensures
            r.var() == self.address_var().diversified_generator_var().var(),
    {
        self.address.diversified_generator()
    }

    /// The transmission key of the address, as a group element.
    pub fn transmission_key(&self) -> (r: PointVar)
        ensures
            r.var() == self.address_var().transmission_key_var().var(),
    {
        self.address.transmission_key()
    }

    /// The transmission key of the address, as a field element.
    pub fn transmission_key_s(&self) -> (r: FqVar)
        ensures
            r == self.address_var().transmission_key_s_var(),
    {
        self.address.transmission_key_s()
    }

    /// The clue key of the address.
    pub fn clue_key(&self) -> (r: FqVar)
        ensures
            r == self.address_var().clue_key_var(),
    {
        self.address.clue_key()
    }
}

} // verus!
