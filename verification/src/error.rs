use vstd::prelude::*;
use crate::location::Location;
use crate::ty::{State, Ty, TyV, Var};

verus! {

/// Why two types could not be reconciled.
#[derive(Debug, PartialEq)]
pub enum TypeError {
    /// The two terms have incompatible shapes.
    Mismatch(Ty, Ty, Location),
    /// A field that the record lacks was added where the record's state forbids it.
    IllegalExtension { name: String, state: State, location: Location },
    /// Binding the variable to the term would make the variable part of its own value.
    Cyclic(Var, Ty, Location),
    /// Resolution or elaboration went deeper than the solver allows, or the solver ran out of
    /// variables.
    LimitExceeded(Location),
}

/// The mathematical value of a [`TypeError`].
pub ghost enum TypeErrorV {
    Mismatch(TyV, TyV, Location),
    IllegalExtension { name: Seq<char>, state: State, location: Location },
    Cyclic(Var, TyV, Location),
    LimitExceeded(Location),
}

impl View for TypeError {
    type V = TypeErrorV;

    open spec fn view(&self) -> TypeErrorV {
        match *self {
            TypeError::Mismatch(a, b, location) => TypeErrorV::Mismatch(a@, b@, location),
            TypeError::IllegalExtension { name, state, location } => TypeErrorV::IllegalExtension {
                name: name@,
                state,
                location,
            },
            TypeError::Cyclic(var, ty, location) => TypeErrorV::Cyclic(var, ty@, location),
            TypeError::LimitExceeded(location) => TypeErrorV::LimitExceeded(location),
        }
    }
}

/// The values of a list of errors, in order.
pub open spec fn errors_view(errors: Seq<TypeError>) -> Seq<TypeErrorV> {
    Seq::new(errors.len(), |i: int| errors[i]@)
}

impl TypeError {
    /// Where the error arose.
    pub fn location(&self) -> (location: Location)
        ensures
            location == self@.location(),
    {
        match self {
            TypeError::Mismatch(_, _, location) => *location,
            TypeError::IllegalExtension { location, .. } => *location,
            TypeError::Cyclic(_, _, location) => *location,
            TypeError::LimitExceeded(location) => *location,
        }
    }

    /// A deep copy of the error.
    pub fn duplicate(&self) -> (out: TypeError)
        ensures
            out@ == self@,
    {
        match self {
            TypeError::Mismatch(a, b, location) => TypeError::Mismatch(
                a.duplicate(),
                b.duplicate(),
                *location,
            ),
            TypeError::IllegalExtension { name, state, location } => TypeError::IllegalExtension {
                name: name.clone(),
                state: *state,
                location: *location,
            },
            TypeError::Cyclic(var, ty, location) => TypeError::Cyclic(
                *var,
                ty.duplicate(),
                *location,
            ),
            TypeError::LimitExceeded(location) => TypeError::LimitExceeded(*location),
        }
    }
}

impl TypeErrorV {
    pub open spec fn location(self) -> Location {
        match self {
            TypeErrorV::Mismatch(_, _, location) => location,
            TypeErrorV::IllegalExtension { location, .. } => location,
            TypeErrorV::Cyclic(_, _, location) => location,
            TypeErrorV::LimitExceeded(location) => location,
        }
    }
}

} // verus!
