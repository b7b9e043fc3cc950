use vstd::prelude::*;
use crate::parse::expression::ExpressionBox;
use crate::solver::{Solver, SolverV};
use crate::ty::{
    Call, Def, Field, FieldV, Func, FuncV, Record, RecordV, Ty, TyV, Var, fields_view, tys_view,
};

verus! {

/// The mathematical value of an optional term.
pub open spec fn opt_view(ty: Option<Ty>) -> Option<TyV> {
    match ty {
        Some(ty) => Some(ty@),
        None => None,
    }
}

/// The mathematical value of an optional list of terms.
pub open spec fn opt_tys_view(tys: Option<Vec<Ty>>) -> Option<Seq<TyV>> {
    match tys {
        Some(tys) => Some(tys_view(tys@)),
        None => None,
    }
}

/// The mathematical value of an optional list of fields.
pub open spec fn opt_fields_view(fields: Option<Vec<(String, Field)>>) -> Option<
    Seq<(Seq<char>, FieldV)>,
> {
    match fields {
        Some(fields) => Some(fields_view(fields@)),
        None => None,
    }
}

impl SolverV {
    /// The term with every bound variable replaced by what it is bound to, all the way down.
    /// Unbound variables stay, written as the end of their chain. `None` where the term is
    /// deeper than `fuel` or a chain runs in a cycle.
    pub open spec fn resolve(self, ty: TyV, fuel: nat) -> Option<TyV>
        decreases fuel, 0nat,
    {
        if fuel == 0 {
            None
        } else {
            let rest = (fuel - 1) as nat;
            match ty {
                TyV::Var(var) => match self.root_of(var) {
                    None => None,
                    Some(root) => if self.subs.contains_key(root) {
                        self.resolve(self.subs[root], rest)
                    } else {
                        Some(TyV::Var(root))
                    },
                },
                TyV::Array(inner) => match self.resolve(*inner, rest) {
                    Some(inner) => Some(TyV::Array(Box::new(inner))),
                    None => None,
                },
                TyV::Record(record) => match self.resolve_fields(record.fields, Seq::empty(), rest) {
                    Some(fields) => Some(TyV::Record(RecordV { fields, state: record.state })),
                    None => None,
                },
                TyV::Func(FuncV::Def { binding, parameters, return_type }) => match (
                    self.resolve_all(parameters, Seq::empty(), rest),
                    self.resolve(*return_type, rest),
                ) {
                    (Some(parameters), Some(return_type)) => Some(
                        TyV::Func(
                            FuncV::Def { binding, parameters, return_type: Box::new(return_type) },
                        ),
                    ),
                    _ => None,
                },
                TyV::Func(FuncV::Call { parameters, return_type }) => match (
                    self.resolve_all(parameters, Seq::empty(), rest),
                    self.resolve(*return_type, rest),
                ) {
                    (Some(parameters), Some(return_type)) => Some(
                        TyV::Func(FuncV::Call { parameters, return_type: Box::new(return_type) }),
                    ),
                    _ => None,
                },
                _ => Some(ty),
            }
        }
    }

    /// The terms resolved one by one, from the place `done.len()` on, behind `done`.
    pub open spec fn resolve_all(self, tys: Seq<TyV>, done: Seq<TyV>, fuel: nat) -> Option<Seq<TyV>>
        decreases fuel, 1 + tys.len() - done.len(),
    {
        if done.len() >= tys.len() {
            Some(done)
        } else {
            match self.resolve(tys[done.len() as int], fuel) {
                Some(ty) => self.resolve_all(tys, done.push(ty), fuel),
                None => None,
            }
        }
    }

    /// The fields with their types resolved one by one, from the place `done.len()` on, behind
    /// `done`.
    pub open spec fn resolve_fields(
        self,
        fields: Seq<(Seq<char>, FieldV)>,
        done: Seq<(Seq<char>, FieldV)>,
        fuel: nat,
    ) -> Option<Seq<(Seq<char>, FieldV)>>
        decreases fuel, 1 + fields.len() - done.len(),
    {
        if done.len() >= fields.len() {
            Some(done)
        } else {
            let (name, field) = fields[done.len() as int];
            match self.resolve(field.ty, fuel) {
                Some(ty) => self.resolve_fields(
                    fields,
                    done.push((name, FieldV { ty, location: field.location, op: field.op })),
                    fuel,
                ),
                None => None,
            }
        }
    }

    /// What is known of a variable: nothing where the variable was never bound, its resolved
    /// term otherwise.
    pub open spec fn query_var(self, var: Var) -> Option<TyV> {
        if self.subs.contains_key(var) {
            self.resolve(TyV::Var(var), self.depth_limit as nat)
        } else {
            None
        }
    }

    /// What is known of the field `name` of the record that `scope` stands for.
    pub open spec fn query_field(self, scope: Var, name: Seq<char>) -> Option<TyV> {
        match self.record_at(scope) {
            Some(reached) => if reached.record.contains(name) {
                self.resolve(reached.record.field(name).ty, self.depth_limit as nat)
            } else {
                None
            },
            None => None,
        }
    }
}

impl<'a> Solver<'a> {
    /// The term with every bound variable replaced by what it is bound to, all the way down.
    pub fn resolve(&self, ty: &Ty, fuel: usize) -> (out: Option<Ty>)
        ensures
            opt_view(out) == self@.resolve(ty@, fuel as nat),
        decreases fuel, 0nat,
    {
        if fuel == 0 {
            return None;
        }
        let rest = fuel - 1;
        match ty {
            Ty::Var(var) => match self.root_of(*var) {
                None => None,
                Some(root) => match self.binding(root) {
                    Some(bound) => self.resolve(&bound, rest),
                    None => Some(Ty::Var(root)),
                },
            },
            Ty::Array(inner) => match self.resolve(inner, rest) {
                Some(inner) => Some(Ty::Array(Box::new(inner))),
                None => None,
            },
            Ty::Record(record) => match self.resolve_fields(&record.fields, rest) {
                Some(fields) => Some(Ty::Record(Record { fields, state: record.state })),
                None => None,
            },
            Ty::Func(Func::Def(d)) => {
                let parameters = self.resolve_all(&d.parameters, rest);
                let return_type = self.resolve(&d.return_type, rest);
                match (parameters, return_type) {
                    (Some(parameters), Some(return_type)) => {
                        let binding = match &d.binding {
                            Some(b) => Some(b.duplicate()),
                            None => None,
                        };
                        Some(
                            Ty::Func(
                                Func::Def(
                                    Def { binding, parameters, return_type: Box::new(return_type) },
                                ),
                            ),
                        )
                    },
                    _ => None,
                }
            },
            Ty::Func(Func::Call(c)) => {
                let parameters = self.resolve_all(&c.parameters, rest);
                let return_type = self.resolve(&c.return_type, rest);
                match (parameters, return_type) {
                    (Some(parameters), Some(return_type)) => Some(
                        Ty::Func(Func::Call(Call { parameters, return_type: Box::new(return_type) })),
                    ),
                    _ => None,
                }
            },
            _ => Some(ty.duplicate()),
        }
    }

    /// The terms resolved one by one.
    pub fn resolve_all(&self, tys: &Vec<Ty>, fuel: usize) -> (out: Option<Vec<Ty>>)
        ensures
            opt_tys_view(out) == self@.resolve_all(tys_view(tys@), Seq::empty(), fuel as nat),
        decreases fuel, 1nat,
    {
        let mut done: Vec<Ty> = Vec::new();
        let mut i: usize = 0;
        assert(tys_view(done@) =~= Seq::empty());
        while i < tys.len()
            invariant
                i <= tys.len(),
                done@.len() == i,
                self@.resolve_all(tys_view(tys@), tys_view(done@), fuel as nat)
                    == self@.resolve_all(tys_view(tys@), Seq::empty(), fuel as nat),
            decreases tys.len() - i,
        {
            let ghost before = tys_view(done@);
            match self.resolve(&tys[i], fuel) {
                Some(ty) => {
                    done.push(ty);
                    assert(tys_view(done@) =~= before.push(ty@));
                },
                None => {
                    return None;
                },
            }
            i += 1;
        }
        Some(done)
    }

    /// The fields with their types resolved one by one.
    pub fn resolve_fields(&self, fields: &Vec<(String, Field)>, fuel: usize) -> (out: Option<
        Vec<(String, Field)>,
    >)
        ensures
            opt_fields_view(out) == self@.resolve_fields(
                fields_view(fields@),
                Seq::empty(),
                fuel as nat,
            ),
        decreases fuel, 1nat,
    {
        let mut done: Vec<(String, Field)> = Vec::new();
        let mut i: usize = 0;
        assert(fields_view(done@) =~= Seq::empty());
        while i < fields.len()
            invariant
                i <= fields.len(),
                done@.len() == i,
                self@.resolve_fields(fields_view(fields@), fields_view(done@), fuel as nat)
                    == self@.resolve_fields(fields_view(fields@), Seq::empty(), fuel as nat),
            decreases fields.len() - i,
        {
            let ghost before = fields_view(done@);
            let entry = &fields[i];
            assert(fields_view(fields@)[i as int] == (entry.0@, entry.1@));
            match self.resolve(&entry.1.ty, fuel) {
                Some(ty) => {
                    done.push(
                        (entry.0.clone(), Field { ty, location: entry.1.location, op: entry.1.op }),
                    );
                    assert(fields_view(done@) =~= before.push(
                        (
                            entry.0@,
                            FieldV { ty: ty@, location: entry.1.location, op: entry.1.op },
                        ),
                    ));
                },
                None => {
                    return None;
                },
            }
            i += 1;
        }
        Some(done)
    }

    /// What is known of a variable: nothing where the variable was never bound, its resolved
    /// term otherwise.
    pub fn query_var(&self, var: Var) -> (out: Option<Ty>)
        ensures
            opt_view(out) == self@.query_var(var),
    {
        match self.binding(var) {
            Some(_) => self.resolve(&Ty::Var(var), self.depth_limit()),
            None => None,
        }
    }

    /// What is known of an expression that the elaboration in progress has walked.
    pub fn query(&self, expr: &ExpressionBox) -> (out: Option<Ty>)
        ensures
            opt_view(out) == self@.query_var(self@.var_for(*expr)),
    {
        self.query_var(self.var_for(expr))
    }

    /// What is known of the field `name` of the record that `scope` stands for.
    pub fn query_field(&self, scope: Var, name: &str) -> (out: Option<Ty>)
        ensures
            opt_view(out) == self@.query_field(scope, name@),
    {
        match self.record_at(scope) {
            Some((_, record)) => match record.get(name) {
                Some(field) => self.resolve(&field.ty, self.depth_limit()),
                None => None,
            },
            None => None,
        }
    }

    /// What is known of a local variable of the scope in use.
    pub fn query_local(&self, name: &str) -> (out: Option<Ty>)
        ensures
            opt_view(out) == self@.query_field(self@.local_var(), name@),
    {
        self.query_field(self.local_var(), name)
    }

    /// What is known of a field of the self scope in use.
    pub fn query_self(&self, name: &str) -> (out: Option<Ty>)
        ensures
            opt_view(out) == self@.query_field(self@.self_var(), name@),
    {
        self.query_field(self.current_self_var(), name)
    }

    /// What is known of a global variable.
    pub fn query_global(&self, name: &str) -> (out: Option<Ty>)
        ensures
            opt_view(out) == if self@.globals.contains(name@) {
                self@.resolve(self@.globals.field(name@).ty, self@.depth_limit as nat)
            } else {
                None
            },
    {
        let globals = self.global_scope();
        match globals.get(name) {
            Some(field) => self.resolve(&field.ty, self.depth_limit()),
            None => None,
        }
    }
}

} // verus!
