use vstd::prelude::*;
use crate::error::{TypeError, errors_view};
use crate::goals::model::{run_of, signature_view};
use crate::location::Location;
use crate::parse::expression::ExpressionBox;
use crate::solver::Solver;
use crate::ty::{Call, Func, Ty, TyV, Var};
use crate::unify::unit_view;

verus! {

impl<'a> Solver<'a> {
    /// Elaborates the function kept under `var`, if one is, into a scope of its own, and
    /// returns its signature.
    pub fn elaborate(&mut self, var: Var, fuel: usize, errors: &mut Vec<TypeError>) -> (out: Result<
        Option<Ty>,
        TypeError,
    >)
        ensures
            (run_of(final(self)@, final(errors)@), signature_view(out)) == run_of(
                old(self)@,
                old(errors)@,
            ).elaborate(var, fuel as nat),
        decreases fuel, 1nat, Var::Return, 0nat,
    {
        match self.find_template(var) {
            None => Ok(None),
            Some(i) => {
                let template = self.template_at(i);
                let function = template.function;
                let self_scope = template.self_scope;
                let local_scope = template.local_scope;
                if fuel == 0 {
                    return Err(TypeError::LimitExceeded(function.location()));
                }
                match self.process_function(function, self_scope, local_scope, fuel - 1, errors) {
                    Ok(signature) => Ok(Some(signature)),
                    Err(e) => Err(e),
                }
            },
        }
    }

    /// Types a call: where the callee is a function kept for elaboration, the function is
    /// elaborated anew and its signature unified with that of the call; otherwise the callee
    /// itself is unified with the signature of the call.
    pub fn elaborate_call(&mut self, callee: &Ty, call: Ty, location: Location, fuel: usize) -> (out:
        Result<(), TypeError>)
        ensures
            (final(self)@, unit_view(out)) == old(self)@.elaborate_call(
                callee@,
                call@,
                location,
                fuel as nat,
            ),
        decreases fuel, 1nat, Var::Return, 1nat,
    {
        match self.kept_callee(callee) {
            Some(root) => {
                let mut scratch: Vec<TypeError> = Vec::new();
                assert(errors_view(scratch@) =~= Seq::empty());
                match self.elaborate(root, fuel, &mut scratch) {
                    Ok(Some(signature)) => self.unify_tys(&signature, &call, location),
                    Ok(None) => self.unify_tys(callee, &call, location),
                    Err(e) => Err(e),
                }
            },
            None => self.unify_tys(callee, &call, location),
        }
    }

    /// Applies the rule of a call.
    pub fn constrain_call(&mut self, expr: &ExpressionBox, left: &ExpressionBox, arguments: &Vec<ExpressionBox>, fuel: usize) -> (out:
        Result<(), TypeError>)
        ensures
            (final(self)@, unit_view(out)) == old(self)@.constrain_call(
                *expr,
                *left,
                arguments@,
                fuel as nat,
            ),
        decreases fuel, 1nat, Var::Return, 2nat,
    {
        let callee = self.canonize(left)?;
        let parameters = self.canonize_all(arguments)?;
        let result = Ty::Var(self.var_for(expr));
        assert(result@ == TyV::Var(self@.var_for(*expr)));
        let call = Ty::Func(Func::Call(Call { parameters, return_type: Box::new(result) }));
        self.elaborate_call(&callee, call, expr.location(), fuel)
    }
}

} // verus!
