//! The circuit under construction and the variables in it, as the gadgets see
//! them: what a circuit is asked to keep track of, what a variable carries,
//! and when a variable is fit to be worked on in a circuit.

use vstd::prelude::*;
use decaf377::r1cs::ElementVar;
use crate::backend::alloc_element;
use crate::backend::allocated;
use crate::backend::bool_is_constant;
use crate::backend::bool_shares;
use crate::backend::bool_has_value;
use crate::backend::bool_operand;
use crate::backend::bool_var_value;
use crate::backend::circuit_inputs;
use crate::backend::circuit_is_live;
use crate::backend::circuit_is_setup;
use crate::backend::circuit_is_violated;
use crate::backend::circuit_witnesses;
use crate::backend::clone_element_var;
use crate::backend::clone_fq_var;
use crate::backend::decode_element;
use crate::backend::element_shares;
use crate::backend::element_has_value;
use crate::backend::element_encoding;
use crate::backend::element_var_belongs;
use crate::backend::element_var_is_constant;
use crate::backend::element_var_sound;
use crate::backend::element_var_value;
use crate::backend::enter_setup;
use crate::backend::fq_shares;
use crate::backend::fq_has_value;
use crate::backend::fq_is_constant;
use crate::backend::fq_var_belongs;
use crate::backend::fq_var_is_constant;
use crate::backend::fq_var_value;
use crate::backend::fresh_circuit;
use crate::backend::grown;
use crate::backend::inputs_made;
use crate::backend::is_none;
use crate::backend::is_setup;
use crate::backend::BoolVar;
use crate::backend::Circuit;
use crate::backend::FqVar;
use crate::error::SynthesisFailure;
use crate::mode::Mode;

verus! {

impl Circuit {
    /// Whether a constraint system backs the circuit. Without one, nothing
    /// but constants can be allocated.
    pub open spec fn live(&self) -> bool {
        circuit_is_live(*self)
    }

    /// Whether the circuit only records the shape of the constraints, as for
    /// key generation. Its variables then carry no values.
    pub open spec fn in_setup(&self) -> bool {
        circuit_is_setup(*self)
    }

    /// Whether the values assigned so far break a constraint. A circuit in
    /// setup mode assigns none.
    pub open spec fn violated(&self) -> bool {
        circuit_is_violated(*self)
    }

    /// How many values the verifier is to supply, the constant one counted
    /// in.
    pub open spec fn inputs(&self) -> nat {
        circuit_inputs(*self)
    }

    /// How many values the prover alone supplies.
    pub open spec fn witnesses(&self) -> nat {
        circuit_witnesses(*self)
    }

    /// A fresh circuit for a prover: variables carry the values they are
    /// allocated with.
    pub fn proving() -> (c: Circuit)
        ensures
            c.live(),
            !c.in_setup(),
            !c.violated(),
            c.inputs() == 1,
            c.witnesses() == 0,
    {
        fresh_circuit()
    }

    /// A fresh circuit for key generation: the same constraints, no values.
    pub fn setup() -> (c: Circuit)
        ensures
            c.live(),
            c.in_setup(),
            !c.violated(),
            c.inputs() == 1,
            c.witnesses() == 0,
    {
        let mut c = fresh_circuit();
        enter_setup(&mut c);
        c
    }

    /// Tells whether a constraint system backs the circuit.
    pub fn is_live(&self) -> (r: bool)
        ensures
            r == self.live(),
    {
        !is_none(self)
    }

    /// Tells whether the circuit is in setup mode.
    pub fn is_in_setup(&self) -> (r: bool)
        ensures
            r == self.in_setup(),
    {
        is_setup(self)
    }
}

impl FqVar {
    /// The field element that the variable carries, if it carries one.
    pub open spec fn value(&self) -> Option<nat> {
        fq_var_value(*self)
    }

    /// Whether the variable is a proper variable of the circuit, with what
    /// the circuit gives its variables: it was allocated there, as an input
    /// or a witness, and carries a value exactly when the circuit is not in
    /// setup mode.
    pub open spec fn ready(&self, c: Circuit) -> bool {
        &&& fq_var_belongs(*self, c)
        &&& !fq_var_is_constant(*self)
        &&& (self.value() is Some <==> !c.in_setup())
    }

    /// Tells whether the variable carries a value.
    pub fn has_value(&self) -> (r: bool)
        ensures
            r == (self.value() is Some),
    {
        fq_has_value(self)
    }

    /// Tells whether the variable is a proper variable of the circuit, with
    /// what the circuit gives its variables.
    pub fn ready_in(&self, c: &Circuit) -> (r: bool)
        ensures
            r == self.ready(*c),
    {
        !fq_is_constant(self) && fq_shares(self, c) && fq_has_value(self) != is_setup(c)
    }
}

impl Clone for FqVar {
    fn clone(&self) -> (r: Self)
        ensures
            r == *self,
    {
        clone_fq_var(self)
    }
}

impl BoolVar {
    /// The truth value that the variable carries, if it carries one.
    pub open spec fn value(&self) -> Option<bool> {
        bool_var_value(*self)
    }

    /// Whether an operation of the circuit can take the flag: it is a
    /// constant or a variable of the circuit, and it carries a value unless
    /// the circuit carries none.
    pub open spec fn operand(&self, c: Circuit) -> bool {
        bool_operand(*self, c)
    }

    /// Tells whether an operation of the circuit can take the flag.
    pub fn operand_in(&self, c: &Circuit) -> (r: bool)
        ensures
            r == self.operand(*c),
    {
        (bool_is_constant(self) || bool_shares(self, c)) && (bool_has_value(self) || is_setup(c))
    }
}

/// A group element in a circuit that this library made: a proper variable of
/// its circuit, never a constant, that holds its element decoded. Reading it
/// changes no circuit.
pub struct PointVar {
    inner: ElementVar,
}

impl PointVar {
    #[verifier::type_invariant]
    spec fn well_formed(self) -> bool {
        element_var_sound(self.inner) && !element_var_is_constant(self.inner)
    }

    /// The variable of the backend that holds the element.
    pub closed spec fn var(&self) -> ElementVar {
        self.inner
    }

    /// The group element that the variable carries, as its encoding, if it
    /// carries one.
    pub open spec fn value(&self) -> Option<nat> {
        element_var_value(self.var())
    }

    /// Whether the variable is a variable of the circuit, with what the
    /// circuit gives its variables: it was allocated or derived there, and
    /// carries a value exactly when the circuit is not in setup mode.
    pub open spec fn ready(&self, c: Circuit) -> bool {
        &&& element_var_belongs(self.var(), c)
        &&& (self.value() is Some <==> !c.in_setup())
    }

    /// Takes a variable that this library made.
    pub(crate) fn adopt(inner: ElementVar) -> (r: PointVar)
        requires
            element_var_sound(inner),
            !element_var_is_constant(inner),
        ensures
            r.var() == inner,
    {
        PointVar { inner }
    }

    /// The variable of the backend, for the operations of the backend.
    pub(crate) fn raw(&self) -> (r: &ElementVar)
        ensures
            *r == self.var(),
            element_var_sound(*r),
            !element_var_is_constant(*r),
    {
        proof {
            use_type_invariant(self);
        }
        &self.inner
    }

    /// Allocates a group element, as a public input or as a witness. An
    /// input is one more public input, the element's encoding, and is decoded
    /// in the circuit at once.
    pub fn new_variable(c: &mut Circuit, element: decaf377::Element, mode: Mode) -> (r: Result<
        PointVar,
        SynthesisFailure,
    >)
        requires
            mode != Mode::Constant,
        ensures
            grown(*old(c), *final(c), inputs_made(r is Ok, mode)),
            final(c).violated() == old(c).violated(),
            r is Ok <==> old(c).live(),
            r matches Ok(v) ==> v.value() == allocated(element_encoding(element), mode, *old(c))
                && v.ready(*final(c)),
            r matches Err(e) ==> e is Backend,
    {
        let inner = match alloc_element(c, element, mode) {
            Ok(v) => v,
            Err(e) => {
                return Err(SynthesisFailure::Backend(e));
            },
        };
        match mode {
            Mode::Input => Ok(PointVar { inner: decode_element(c, inner) }),
            _ => Ok(PointVar { inner }),
        }
    }

    /// The variable of the backend that holds the element.
    pub fn element(&self) -> (r: ElementVar)
        ensures
            r == self.var(),
    {
        clone_element_var(&self.inner)
    }

    /// The same variable once more.
    pub fn duplicate(&self) -> (r: PointVar)
        ensures
            r.var() == self.var(),
    {
        proof {
            use_type_invariant(self);
        }
        PointVar { inner: clone_element_var(&self.inner) }
    }

    /// Tells whether the variable is a variable of the circuit, with what the
    /// circuit gives its variables.
    pub fn ready_in(&self, c: &Circuit) -> (r: bool)
        ensures
            r == self.ready(*c),
    {
        proof {
            use_type_invariant(self);
        }
        element_shares(&self.inner, c) && element_has_value(&self.inner) != is_setup(c)
    }
}

} // verus!
