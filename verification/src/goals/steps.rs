use vstd::prelude::*;
use crate::error::{TypeError, errors_view};
use crate::goals::model::{Scopes, Target, Walk, signature_of, name_view};
use crate::query::opt_view;
use crate::parse::expression::{Assignment, Expression, ExpressionBox, Scope, pointees, push_ref};
use crate::solver::{Solver, Template};
use crate::ty::{Binding, Def, Field, Func, RecordOp, Ty, TyV, Var, fields_view, tys_view};
use crate::unify::{list_view, outcome_view, unit_view};

verus! {

/// Adds an error at the end of a list of errors.
pub fn push_error(errors: &mut Vec<TypeError>, e: TypeError)
    ensures
        errors_view(final(errors)@) == errors_view(old(errors)@).push(e@),
{
    errors.push(e);
    assert(errors_view(errors@) =~= errors_view(old(errors)@).push(e@));
}

/// Adds the error of an outcome, where it is one, at the end of a list of errors.
pub fn note_error(errors: &mut Vec<TypeError>, out: Result<(), TypeError>)
    ensures
        errors_view(final(errors)@) == match out {
            Err(e) => errors_view(old(errors)@).push(e@),
            Ok(()) => errors_view(old(errors)@),
        },
{
    match out {
        Err(e) => {
            push_error(errors, e);
        },
        Ok(()) => {},
    }
}

/// The scopes that a function is elaborated in.
pub struct OwnScopes {
    pub own_self: Var,
    pub own_local: Var,
}

impl View for OwnScopes {
    type V = Scopes;

    open spec fn view(&self) -> Scopes {
        Scopes { own_self: self.own_self, own_local: self.own_local }
    }
}

/// The mathematical value of optional scopes.
pub open spec fn scopes_view(scopes: Option<OwnScopes>) -> Option<Scopes> {
    match scopes {
        Some(scopes) => Some(scopes@),
        None => None,
    }
}

/// What an assignment writes to.
pub enum TargetRef<'a> {
    Name(&'a String),
    Current(&'a String),
    Global(&'a String),
    Member(&'a ExpressionBox, &'a String),
    Other,
}

impl<'a> View for TargetRef<'a> {
    type V = Target;

    open spec fn view(&self) -> Target {
        match *self {
            TargetRef::Name(name) => Target::Name(name@),
            TargetRef::Current(name) => Target::Current(name@),
            TargetRef::Global(name) => Target::Global(name@),
            TargetRef::Member(object, name) => Target::Member(*object, name@),
            TargetRef::Other => Target::Other,
        }
    }
}

/// What an assignment writes to.
pub fn target_of<'a>(assignment: &'a Assignment) -> (out: TargetRef<'a>)
    ensures
        out@ == assignment.target(),
        out matches TargetRef::Member(object, _) ==> decreases_to!(assignment.left => *object),
{
    match assignment.left.expression() {
        Expression::Identifier(name) => TargetRef::Name(name),
        Expression::Access(Scope::Current, member) => match member.expression() {
            Expression::Identifier(name) => TargetRef::Current(name),
            _ => TargetRef::Other,
        },
        Expression::Access(Scope::Global, member) => match member.expression() {
            Expression::Identifier(name) => TargetRef::Global(name),
            _ => TargetRef::Other,
        },
        Expression::Access(Scope::Dot(object), member) => match member.expression() {
            Expression::Identifier(name) => TargetRef::Member(object, name),
            _ => TargetRef::Other,
        },
        _ => TargetRef::Other,
    }
}

/// The signature of an elaborated function, or the first error met while its parameters were
/// declared or its parent adopted.
pub fn build_signature(
    is_constructor: bool,
    scopes: OwnScopes,
    parameters: Result<Vec<Ty>, TypeError>,
    inheritance: Result<Option<String>, TypeError>,
    return_type: Ty,
) -> (out: Result<Ty, TypeError>)
    ensures
        outcome_view(out) == signature_of(
            is_constructor,
            scopes@,
            list_view(parameters),
            name_view(inheritance),
            return_type@,
        ),
{
    let parameters = match parameters {
        Ok(parameters) => parameters,
        Err(e) => {
            return Err(e);
        },
    };
    let inheritance = match inheritance {
        Ok(name) => name,
        Err(e) => {
            return Err(e);
        },
    };
    let binding = if is_constructor {
        Binding::Constructor {
            local_scope: scopes.own_local,
            self_scope: scopes.own_self,
            inheritance,
        }
    } else {
        Binding::Method { local_scope: scopes.own_local, self_scope: scopes.own_self }
    };
    Ok(
        Ty::Func(
            Func::Def(Def { binding: Some(binding), parameters, return_type: Box::new(return_type) }),
        ),
    )
}

impl<'a> Solver<'a> {
    /// Keeps a function for elaboration: it is filed under the variable of its expression with
    /// the scopes in use, written in the self scope under its name where it has one, and put
    /// at the end of the functions met.
    pub fn keep_function(&mut self, expr: &'a ExpressionBox, name: &Option<String>, functions: &mut Vec<&'a ExpressionBox>) -> (out:
        Result<(), TypeError>)
        ensures
            (
                Walk {
                    solver: final(self)@,
                    functions: pointees(final(functions)@),
                    errors: Seq::empty(),
                },
                unit_view(out),
            ) == (Walk {
                solver: old(self)@,
                functions: pointees(old(functions)@),
                errors: Seq::empty(),
            }).keep_function(*expr, *name),
    {
        let var = self.var_for(expr);
        let self_scope = self.current_self_var();
        let local_scope = self.local_var();
        self.register_template(Template { var, function: expr, self_scope, local_scope });
        match name {
            Some(name) => {
                match self.apply_at(
                    self_scope,
                    name.as_str(),
                    Field { ty: Ty::Var(var), location: expr.location(), op: RecordOp::Write },
                ) {
                    Ok(()) => {},
                    Err(e) => {
                        return Err(e);
                    },
                }
            },
            None => {},
        }
        push_ref(functions, expr);
        Ok(())
    }

    /// The function that a callee stands for, where it stands for one kept for elaboration.
    pub fn kept_callee(&self, callee: &Ty) -> (kept: Option<Var>)
        ensures
            kept == self@.kept_callee(callee@),
    {
        match self.head(callee) {
            Some(h) => match h.root {
                Some(root) => if self.is_template(root) {
                    Some(root)
                } else {
                    None
                },
                None => None,
            },
            None => None,
        }
    }

    /// The variables of the expressions of a list, in the elaboration in progress.
    pub fn vars_for(&self, exprs: &Vec<ExpressionBox>) -> (out: Vec<Ty>)
        ensures
            tys_view(out@) == Seq::new(exprs@.len(), |i: int| TyV::Var(self@.var_for(exprs@[i]))),
    {
        let mut out: Vec<Ty> = Vec::new();
        let mut i: usize = 0;
        while i < exprs.len()
            invariant
                i <= exprs.len(),
                out@.len() == i,
                forall|j: int| 0 <= j < i ==> (#[trigger] out@[j])@ == TyV::Var(self@.var_for(exprs@[j])),
            decreases exprs.len() - i,
        {
            out.push(Ty::Var(self.var_for(&exprs[i])));
            i += 1;
        }
        assert(tys_view(out@) =~= Seq::new(
            exprs@.len(),
            |i: int| TyV::Var(self@.var_for(exprs@[i])),
        ));
        out
    }

    /// Applies the fields of a record to the record that `scope` stands for, as fields that
    /// were written.
    pub fn adopt_fields(&mut self, scope: Var, fields: &Vec<(String, Field)>) -> (out: Result<
        (),
        TypeError,
    >)
        ensures
            (final(self)@, unit_view(out)) == old(self)@.adopt_fields(scope, fields_view(fields@), 0),
    {
        let mut j: usize = 0;
        while j < fields.len()
            invariant
                j <= fields.len(),
                self@.adopt_fields(scope, fields_view(fields@), j as nat) == old(self)@.adopt_fields(
                    scope,
                    fields_view(fields@),
                    0,
                ),
            decreases fields.len() - j,
        {
            let entry = &fields[j];
            assert(fields_view(fields@)[j as int] == (entry.0@, entry.1@));
            self.apply_at(
                scope,
                entry.0.as_str(),
                Field {
                    ty: entry.1.ty.duplicate(),
                    location: entry.1.location,
                    op: RecordOp::Write,
                },
            )?;
            j += 1;
        }
        Ok(())
    }

    /// The terms that stand for the expressions of a list.
    pub fn canonize_all(&mut self, exprs: &Vec<ExpressionBox>) -> (out: Result<Vec<Ty>, TypeError>)
        ensures
            (final(self)@, list_view(out)) == old(self)@.canonize_all(exprs@, Seq::empty()),
    {
        let mut done: Vec<Ty> = Vec::new();
        assert(tys_view(done@) =~= Seq::empty());
        let mut i: usize = 0;
        while i < exprs.len()
            invariant
                i <= exprs.len(),
                done@.len() == i,
                self@.canonize_all(exprs@, tys_view(done@)) == old(self)@.canonize_all(
                    exprs@,
                    Seq::empty(),
                ),
            decreases exprs.len() - i,
        {
            let ghost before = tys_view(done@);
            let ty = self.canonize(&exprs[i])?;
            done.push(ty);
            assert(tys_view(done@) =~= before.push(ty@));
            i += 1;
        }
        Ok(done)
    }

    /// Enters the scopes of a function.
    pub fn enter_function(&mut self, is_constructor: bool, self_scope: Var) -> (out: Option<
        OwnScopes,
    >)
        ensures
            (final(self)@, scopes_view(out)) == old(self)@.enter_function(is_constructor, self_scope),
    {
        let frame = match self.number_frame() {
            Some(frame) => frame,
            None => {
                return None;
            },
        };
        let own_self = if is_constructor {
            match self.enter_new_self_scope() {
                Some(var) => var,
                None => {
                    return None;
                },
            }
        } else {
            self.enter_self_scope(self_scope);
            self_scope
        };
        let own_local = match self.enter_new_local_scope() {
            Some(var) => var,
            None => {
                let _ = self.depart_self_scope();
                return None;
            },
        };
        self.set_return_slot(None);
        self.set_frame(frame);
        Some(OwnScopes { own_self, own_local })
    }

    /// Leaves the scopes of a function and says what the function returns. The return slot
    /// and the number of the elaboration become what they were outside.
    pub fn leave_function(&mut self, outer_frame: u64, outer_return: Option<Ty>, is_constructor: bool, own_self: Var) -> (return_type:
        Ty)
        ensures
            (final(self)@, return_type@) == old(self)@.leave_function(
                outer_frame,
                opt_view(outer_return),
                is_constructor,
                own_self,
            ),
    {
        if is_constructor {
            self.seal(own_self);
        }
        let return_type = if is_constructor {
            Ty::Var(own_self)
        } else {
            match self.return_slot() {
                Some(ty) => ty,
                None => Ty::Undefined,
            }
        };
        self.set_return_slot(outer_return);
        self.set_frame(outer_frame);
        let _ = self.depart_local_scope();
        let _ = self.depart_self_scope();
        return_type
    }
}

} // verus!
