use vstd::prelude::*;
use crate::error::TypeError;
use crate::goals::model::Run;
use crate::goals::model::run_of;
use crate::goals::steps::note_error;
use crate::location::{Location, Span};
use crate::parse::expression::{ExpressionBox, Parameter, pointees};
use crate::solver::Solver;
use crate::ty::{Field, RecordOp, Ty, Var, tys_view};
use crate::unify::{list_view, outcome_view};

verus! {

impl<'a> Solver<'a> {
    /// Walks one expression, then elaborates the functions met on the way.
    pub fn process_expression(&mut self, expr: &'a ExpressionBox, fuel: usize, errors: &mut Vec<TypeError>)
        ensures
            run_of(final(self)@, final(errors)@) == run_of(old(self)@, old(errors)@).process_expression(
                *expr,
                fuel as nat,
            ),
        decreases fuel, 2nat, *expr, 4nat,
    {
        let mut functions: Vec<&'a ExpressionBox> = Vec::new();
        assert(pointees(functions@) =~= Seq::empty());
        let out = self.visit_expr(expr, fuel, &mut functions, errors);
        note_error(errors, out);
        self.process_functions(&functions, fuel, errors);
    }

    /// The type of a parameter: a new variable where it has no default value, the type of
    /// the default otherwise, with the place of the default.
    pub fn type_parameter(&mut self, parameter: &Parameter) -> (out: (Result<Ty, TypeError>, Location))
        ensures
            (
                (Run { solver: final(self)@, errors: Seq::empty() }),
                outcome_view(out.0),
                out.1,
            ) == (Run { solver: old(self)@, errors: Seq::empty() }).type_parameter(*parameter),
    {
        match &parameter.1 {
            None => match self.fresh_var() {
                Some(var) => (Ok(Ty::Var(var)), Location(0, Span(0, 0))),
                None => (
                    Err(TypeError::LimitExceeded(Location(0, Span(0, 0)))),
                    Location(0, Span(0, 0)),
                ),
            },
            Some(default_value) => (self.canonize(default_value), default_value.location()),
        }
    }

    /// Declares the parameters of a function in its local scope and returns their types.
    pub fn bind_parameters(&mut self, parameters: &'a Vec<Parameter>, scope: Var, fuel: usize, errors: &mut Vec<TypeError>) -> (out:
        Result<Vec<Ty>, TypeError>)
        ensures
            (run_of(final(self)@, final(errors)@), list_view(out)) == run_of(
                old(self)@,
                old(errors)@,
            ).bind_parameters(parameters@, scope, Seq::empty(), fuel as nat),
        decreases fuel, 2nat, *parameters, 1nat,
    {
        let mut types: Vec<Ty> = Vec::new();
        assert(tys_view(types@) =~= Seq::empty());
        let mut i: usize = 0;
        while i < parameters.len()
            invariant
                i <= parameters.len(),
                types@.len() == i,
                run_of(self@, errors@).bind_parameters(parameters@, scope, tys_view(types@), fuel as nat)
                    == run_of(old(self)@, old(errors)@).bind_parameters(
                    parameters@,
                    scope,
                    Seq::empty(),
                    fuel as nat,
                ),
            decreases parameters.len() - i,
        {
            let parameter = &parameters[i];
            let ghost before = tys_view(types@);
            match &parameter.1 {
                Some(default_value) => {
                    self.process_expression(default_value, fuel, errors);
                },
                None => {},
            }
            let (typed, location) = self.type_parameter(parameter);
            let ty = match typed {
                Ok(ty) => ty,
                Err(e) => {
                    return Err(e);
                },
            };
            match self.apply_at(
                scope,
                parameter.0.as_str(),
                Field { ty: ty.duplicate(), location, op: RecordOp::Write },
            ) {
                Ok(()) => {},
                Err(e) => {
                    return Err(e);
                },
            }
            types.push(ty);
            assert(tys_view(types@) =~= before.push(ty@));
            i += 1;
        }
        Ok(types)
    }
}

} // verus!
