use vstd::prelude::*;
use crate::error::TypeError;
use crate::goals::model::run_of;
use crate::goals::steps::build_signature;
use crate::parse::expression::{Constructor, Expression, ExpressionBox};
use crate::solver::Solver;
use crate::ty::{Ty, Var};
use crate::unify::outcome_view;

verus! {

impl<'a> Solver<'a> {
    /// Elaborates a function into scopes of its own and returns its signature.
    pub fn process_function(&mut self, function: &'a ExpressionBox, self_scope: Var, local_scope: Var, fuel: usize, errors: &mut Vec<TypeError>) -> (out:
        Result<Ty, TypeError>)
        ensures
            (run_of(final(self)@, final(errors)@), outcome_view(out)) == run_of(
                old(self)@,
                old(errors)@,
            ).process_function(*function, self_scope, local_scope, fuel as nat),
        decreases fuel, 3nat, Var::Return, 0nat,
    {
        let location = function.location();
        match function.expression() {
            Expression::FunctionDeclaration(_, parameters, constructor, body, _) => {
                let is_constructor = constructor.is_some();
                let outer_frame = self.current_frame();
                let outer_return = self.return_slot();
                let scopes = match self.enter_function(is_constructor, self_scope) {
                    Some(scopes) => scopes,
                    None => {
                        return Err(TypeError::LimitExceeded(location));
                    },
                };
                let bound = self.bind_parameters(parameters, scopes.own_local, fuel, errors);
                let inherited = match constructor {
                    Some(Constructor(Some(call))) => self.inherit(
                        call,
                        scopes.own_self,
                        self_scope,
                        local_scope,
                        fuel,
                        errors,
                    ),
                    _ => Ok(None),
                };
                self.process_body(body, fuel, errors);
                let return_type = self.leave_function(
                    outer_frame,
                    outer_return,
                    is_constructor,
                    scopes.own_self,
                );
                build_signature(is_constructor, scopes, bound, inherited, return_type)
            },
            _ => Err(TypeError::Mismatch(Ty::Any, Ty::Any, location)),
        }
    }
}

} // verus!
