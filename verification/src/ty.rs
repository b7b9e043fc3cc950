use vstd::prelude::*;
use crate::location::Location;

verus! {

/// A type variable: a handle into the substitution table.
#[derive(Clone, Copy, Debug, PartialEq, Eq, Hash, Structural)]
pub enum Var {
    /// The variable of the expression `id`, as seen by the elaboration `frame`.
    Expr { frame: u64, id: u64 },
    /// A variable minted by the solver.
    Fresh(u64),
    /// The slot that collects the return type of the function being elaborated.
    Return,
}

/// How open a record is to new fields.
#[derive(Clone, Copy, Debug, PartialEq, Eq, Structural)]
pub enum State {
    /// A generic record inferred from context.
    Inferred,
    /// A record that can have new fields added to it.
    Extendable,
    /// A record that cannot have new fields added to it.
    Concrete,
}

/// Whether a field was met by reading it or by writing to it.
#[derive(Clone, Copy, Debug, PartialEq, Eq, Structural)]
pub enum RecordOp {
    Read,
    Write,
}

/// A type term.
#[derive(Debug, PartialEq)]
pub enum Ty {
    /// A declared but not yet constrained slot.
    Uninitialized,
    Any,
    Undefined,
    Noone,
    Bool,
    Real,
    Str,
    Var(Var),
    Array(Box<Ty>),
    Record(Record),
    Func(Func),
}

/// A function signature, either of a definition or of a call site.
#[derive(Debug, PartialEq)]
pub enum Func {
    Def(Def),
    Call(Call),
}

/// The signature of a function definition.
#[derive(Debug, PartialEq)]
pub struct Def {
    pub binding: Option<Binding>,
    pub parameters: Vec<Ty>,
    pub return_type: Box<Ty>,
}

/// The signature that a call expression asks of its callee.
#[derive(Debug, PartialEq)]
pub struct Call {
    pub parameters: Vec<Ty>,
    pub return_type: Box<Ty>,
}

/// The scopes a function value runs against.
#[derive(Clone, Debug, PartialEq)]
pub enum Binding {
    Method { local_scope: Var, self_scope: Var },
    Constructor { local_scope: Var, self_scope: Var, inheritance: Option<String> },
}

/// A structural record: named fields and how open the record is.
#[derive(Debug, PartialEq)]
pub struct Record {
    pub fields: Vec<(String, Field)>,
    pub state: State,
}

/// One field of a record.
#[derive(Debug, PartialEq)]
pub struct Field {
    pub ty: Ty,
    pub location: Location,
    pub op: RecordOp,
}

/// The mathematical value of a [`Ty`].
pub ghost enum TyV {
    Uninitialized,
    Any,
    Undefined,
    Noone,
    Bool,
    Real,
    Str,
    Var(Var),
    Array(Box<TyV>),
    Record(RecordV),
    Func(FuncV),
}

/// The mathematical value of a [`Func`].
pub ghost enum FuncV {
    Def { binding: Option<BindingV>, parameters: Seq<TyV>, return_type: Box<TyV> },
    Call { parameters: Seq<TyV>, return_type: Box<TyV> },
}

/// The mathematical value of a [`Binding`].
pub ghost enum BindingV {
    Method { local_scope: Var, self_scope: Var },
    Constructor { local_scope: Var, self_scope: Var, inheritance: Option<Seq<char>> },
}

/// The mathematical value of a [`Record`]: its fields in the order they were added.
pub ghost struct RecordV {
    pub fields: Seq<(Seq<char>, FieldV)>,
    pub state: State,
}

/// The mathematical value of a [`Field`].
pub ghost struct FieldV {
    pub ty: TyV,
    pub location: Location,
    pub op: RecordOp,
}

pub open spec fn binding_view(b: Binding) -> BindingV {
    match b {
        Binding::Method { local_scope, self_scope } => BindingV::Method { local_scope, self_scope },
        Binding::Constructor { local_scope, self_scope, inheritance } => BindingV::Constructor {
            local_scope,
            self_scope,
            inheritance: match inheritance {
                Some(name) => Some(name@),
                None => None,
            },
        },
    }
}

pub open spec fn opt_binding_view(b: Option<Binding>) -> Option<BindingV> {
    match b {
        Some(b) => Some(binding_view(b)),
        None => None,
    }
}

pub open spec fn ty_view(t: Ty) -> TyV
    decreases t,
{
    match t {
        Ty::Uninitialized => TyV::Uninitialized,
        Ty::Any => TyV::Any,
        Ty::Undefined => TyV::Undefined,
        Ty::Noone => TyV::Noone,
        Ty::Bool => TyV::Bool,
        Ty::Real => TyV::Real,
        Ty::Str => TyV::Str,
        Ty::Var(v) => TyV::Var(v),
        Ty::Array(inner) => TyV::Array(Box::new(ty_view(*inner))),
        Ty::Record(r) => TyV::Record(
            RecordV { fields: fields_view(r.fields@), state: r.state },
        ),
        Ty::Func(Func::Def(d)) => TyV::Func(
            FuncV::Def {
                binding: opt_binding_view(d.binding),
                parameters: tys_view(d.parameters@),
                return_type: Box::new(ty_view(*d.return_type)),
            },
        ),
        Ty::Func(Func::Call(c)) => TyV::Func(
            FuncV::Call {
                parameters: tys_view(c.parameters@),
                return_type: Box::new(ty_view(*c.return_type)),
            },
        ),
    }
}

pub open spec fn func_view(f: Func) -> FuncV {
    match f {
        Func::Def(d) => FuncV::Def {
            binding: opt_binding_view(d.binding),
            parameters: tys_view(d.parameters@),
            return_type: Box::new(ty_view(*d.return_type)),
        },
        Func::Call(c) => FuncV::Call {
            parameters: tys_view(c.parameters@),
            return_type: Box::new(ty_view(*c.return_type)),
        },
    }
}

pub open spec fn tys_view(s: Seq<Ty>) -> Seq<TyV>
    decreases s,
{
    Seq::new(
        s.len(),
        |i: int|
            if 0 <= i < s.len() {
                ty_view(s[i])
            } else {
                TyV::Any
            },
    )
}

pub open spec fn field_view(f: Field) -> FieldV
    decreases f,
{
    FieldV { ty: ty_view(f.ty), location: f.location, op: f.op }
}

pub open spec fn fields_view(s: Seq<(String, Field)>) -> Seq<(Seq<char>, FieldV)>
    decreases s,
{
    Seq::new(
        s.len(),
        |i: int|
            if 0 <= i < s.len() {
                (s[i].0@, field_view(s[i].1))
            } else {
                (Seq::empty(), FieldV { ty: TyV::Any, location: Location(0, crate::location::Span(0, 0)), op: RecordOp::Read })
            },
    )
}

impl View for Ty {
    type V = TyV;

    open spec fn view(&self) -> TyV {
        ty_view(*self)
    }
}

impl View for Field {
    type V = FieldV;

    open spec fn view(&self) -> FieldV {
        field_view(*self)
    }
}

impl View for Record {
    type V = RecordV;

    open spec fn view(&self) -> RecordV {
        RecordV { fields: fields_view(self.fields@), state: self.state }
    }
}

impl View for Func {
    type V = FuncV;

    open spec fn view(&self) -> FuncV {
        func_view(*self)
    }
}

impl View for Binding {
    type V = BindingV;

    open spec fn view(&self) -> BindingV {
        binding_view(*self)
    }
}


impl Binding {
    pub fn duplicate(&self) -> (out: Binding)
        ensures
            out@ == self@,
    {
        match self {
            Binding::Method { local_scope, self_scope } => Binding::Method {
                local_scope: *local_scope,
                self_scope: *self_scope,
            },
            Binding::Constructor { local_scope, self_scope, inheritance } => {
                let inheritance = match inheritance {
                    Some(name) => Some(name.clone()),
                    None => None,
                };
                Binding::Constructor { local_scope: *local_scope, self_scope: *self_scope, inheritance }
            },
        }
    }
}

/// A deep copy of a list of types.
pub fn duplicate_tys(tys: &Vec<Ty>) -> (out: Vec<Ty>)
    ensures
        tys_view(out@) == tys_view(tys@),
    decreases tys,
{
    let mut out: Vec<Ty> = Vec::new();
    let mut i: usize = 0;
    while i < tys.len()
        invariant
            i <= tys.len(),
            out@.len() == i,
            forall|j: int| 0 <= j < i ==> ty_view(#[trigger] out@[j]) == ty_view(tys@[j]),
        decreases tys.len() - i,
    {
        out.push(tys[i].duplicate());
        i += 1;
    }
    assert(tys_view(out@) =~= tys_view(tys@));
    out
}

/// A deep copy of a list of named fields.
pub fn duplicate_fields(fields: &Vec<(String, Field)>) -> (out: Vec<(String, Field)>)
    ensures
        fields_view(out@) == fields_view(fields@),
    decreases fields,
{
    let mut out: Vec<(String, Field)> = Vec::new();
    let mut i: usize = 0;
    while i < fields.len()
        invariant
            i <= fields.len(),
            out@.len() == i,
            forall|j: int|
                0 <= j < i ==> (#[trigger] out@[j]).0@ == fields@[j].0@ && field_view(out@[j].1)
                    == field_view(fields@[j].1),
        decreases fields.len() - i,
    {
        let entry = &fields[i];
        out.push((entry.0.clone(), entry.1.duplicate()));
        i += 1;
    }
    assert(fields_view(out@) =~= fields_view(fields@));
    out
}

impl Field {
    /// A deep copy of the field.
    pub fn duplicate(&self) -> (out: Field)
        ensures
            out@ == self@,
        decreases self,
    {
        Field { ty: self.ty.duplicate(), location: self.location, op: self.op }
    }
}

impl Record {
    /// A deep copy of the record.
    pub fn duplicate(&self) -> (out: Record)
        ensures
            out@ == self@,
        decreases self,
    {
        Record { fields: duplicate_fields(&self.fields), state: self.state }
    }
}

impl Ty {
    /// A deep copy of the term.
    pub fn duplicate(&self) -> (out: Ty)
        ensures
            out@ == self@,
        decreases self,
    {
        match self {
            Ty::Uninitialized => Ty::Uninitialized,
            Ty::Any => Ty::Any,
            Ty::Undefined => Ty::Undefined,
            Ty::Noone => Ty::Noone,
            Ty::Bool => Ty::Bool,
            Ty::Real => Ty::Real,
            Ty::Str => Ty::Str,
            Ty::Var(v) => Ty::Var(*v),
            Ty::Array(inner) => Ty::Array(Box::new(inner.duplicate())),
            Ty::Record(r) => Ty::Record(r.duplicate()),
            Ty::Func(Func::Def(d)) => {
                let binding = match &d.binding {
                    Some(b) => Some(b.duplicate()),
                    None => None,
                };
                Ty::Func(
                    Func::Def(
                        Def {
                            binding,
                            parameters: duplicate_tys(&d.parameters),
                            return_type: Box::new(d.return_type.duplicate()),
                        },
                    ),
                )
            },
            Ty::Func(Func::Call(c)) => Ty::Func(
                Func::Call(
                    Call {
                        parameters: duplicate_tys(&c.parameters),
                        return_type: Box::new(c.return_type.duplicate()),
                    },
                ),
            ),
        }
    }
}


impl Func {
    /// The types of the parameters.
    pub open spec fn spec_parameters(&self) -> &Vec<Ty> {
        match self {
            Func::Def(d) => &d.parameters,
            Func::Call(c) => &c.parameters,
        }
    }

    /// The type of what the function returns.
    pub open spec fn spec_return_type(&self) -> &Ty {
        match self {
            Func::Def(d) => &*d.return_type,
            Func::Call(c) => &*c.return_type,
        }
    }

    /// The types of the parameters.
    #[verifier::when_used_as_spec(spec_parameters)]
    pub fn parameters(&self) -> (out: &Vec<Ty>)
        ensures
            out == self.spec_parameters(),
    {
        match self {
            Func::Def(inner) => &inner.parameters,
            Func::Call(inner) => &inner.parameters,
        }
    }

    /// The type of what the function returns.
    #[verifier::when_used_as_spec(spec_return_type)]
    pub fn return_type(&self) -> (out: &Ty)
        ensures
            out == self.spec_return_type(),
    {
        match self {
            Func::Def(inner) => &*inner.return_type,
            Func::Call(inner) => &*inner.return_type,
        }
    }

    /// The function with other types for its parameters.
    pub open spec fn with_parameters(self, parameters: Vec<Ty>) -> Func {
        match self {
            Func::Def(d) => Func::Def(
                Def { binding: d.binding, parameters, return_type: d.return_type },
            ),
            Func::Call(c) => Func::Call(Call { parameters, return_type: c.return_type }),
        }
    }

    /// The function with another type for what it returns.
    pub open spec fn with_return_type(self, return_type: Ty) -> Func {
        match self {
            Func::Def(d) => Func::Def(
                Def {
                    binding: d.binding,
                    parameters: d.parameters,
                    return_type: Box::new(return_type),
                },
            ),
            Func::Call(c) => Func::Call(
                Call { parameters: c.parameters, return_type: Box::new(return_type) },
            ),
        }
    }

    /// The types of the parameters, to be changed in place: what is written to them is what
    /// the function has for its parameters afterwards, and nothing else of it changes.
    pub fn parameters_mut(&mut self) -> (out: &mut Vec<Ty>)
        ensures
            *out == *old(self).spec_parameters(),
            *final(self) == old(self).with_parameters(*final(out)),
    {
        match self {
            Func::Def(inner) => &mut inner.parameters,
            Func::Call(inner) => &mut inner.parameters,
        }
    }

    /// The type of what the function returns, to be changed in place: what is written to it
    /// is what the function returns afterwards, and nothing else of it changes.
    pub fn return_type_mut(&mut self) -> (out: &mut Ty)
        ensures
            *out == *old(self).spec_return_type(),
            *final(self) == old(self).with_return_type(*final(out)),
    {
        match self {
            Func::Def(inner) => &mut *inner.return_type,
            Func::Call(inner) => &mut *inner.return_type,
        }
    }
}

} // verus!
