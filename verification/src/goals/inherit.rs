use vstd::prelude::*;
use crate::error::TypeError;
use crate::goals::model::{name_view, run_of, walk_of};
use crate::goals::steps::note_error;
use crate::parse::expression::{Expression, ExpressionBox, pointees};
use crate::query::opt_view;
use crate::solver::Solver;
use crate::ty::{Call, Func, Ty, TyV, Var};
use crate::unify::unit_view;

verus! {

impl<'a> Solver<'a> {
    /// The type of the parent of a constructor.
    pub fn find_parent(&self, outer_local: Var, outer_self: Var, name: &str) -> (out: Option<Ty>)
        ensures
            opt_view(out) == self@.find_parent(outer_local, outer_self, name@),
    {
        match self.lookup_in(outer_local, name) {
            Some(ty) => Some(ty),
            None => self.lookup_in(outer_self, name),
        }
    }

    /// Types the call of a parent constructor and adopts the fields of what it returns.
    pub fn adopt_parent(&mut self, call: &ExpressionBox, arguments: &Vec<ExpressionBox>, parent: &Ty, own_self: Var, fuel: usize) -> (out:
        Result<(), TypeError>)
        ensures
            (final(self)@, unit_view(out)) == old(self)@.adopt_parent(
                *call,
                arguments@,
                parent@,
                own_self,
                fuel as nat,
            ),
        decreases fuel, 1nat, Var::Return, 2nat,
    {
        let types = self.vars_for(arguments);
        let result = self.var_for(call);
        let returned = Ty::Var(result);
        assert(returned@ == TyV::Var(result));
        let signature = Ty::Func(
            Func::Call(Call { parameters: types, return_type: Box::new(returned) }),
        );
        match self.elaborate_call(parent, signature, call.location(), fuel) {
            Ok(()) => {},
            Err(e) => {
                return Err(e);
            },
        }
        match self.record_at(result) {
            Some((_, record)) => self.adopt_fields(own_self, &record.fields),
            None => Ok(()),
        }
    }

    /// Walks the expressions of a list and notes their errors.
    pub fn walk_each(&mut self, exprs: &'a Vec<ExpressionBox>, fuel: usize, functions: &mut Vec<&'a ExpressionBox>, errors: &mut Vec<TypeError>)
        ensures
            walk_of(final(self)@, final(functions)@, final(errors)@) == walk_of(
                old(self)@,
                old(functions)@,
                old(errors)@,
            ).visit_each(exprs@, 0, fuel as nat),
        decreases fuel, 2nat, *exprs, 1nat,
    {
        let mut i: usize = 0;
        while i < exprs.len()
            invariant
                i <= exprs.len(),
                walk_of(self@, functions@, errors@).visit_each(exprs@, i as nat, fuel as nat)
                    == walk_of(old(self)@, old(functions)@, old(errors)@).visit_each(
                    exprs@,
                    0,
                    fuel as nat,
                ),
            decreases exprs.len() - i,
        {
            let out = self.visit_expr(&exprs[i], fuel, functions, errors);
            note_error(errors, out);
            i += 1;
        }
    }

    /// Gives a constructor the fields of the constructor it inherits from, and returns the
    /// name of the parent.
    #[verifier::rlimit(100)]
    pub fn inherit(&mut self, call: &'a ExpressionBox, own_self: Var, outer_self: Var, outer_local: Var, fuel: usize, errors: &mut Vec<TypeError>) -> (out:
        Result<Option<String>, TypeError>)
        ensures
            (run_of(final(self)@, final(errors)@), name_view(out)) == run_of(
                old(self)@,
                old(errors)@,
            ).inherit(*call, own_self, outer_self, outer_local, fuel as nat),
        decreases fuel, 2nat, *call, 2nat,
    {
        match call.expression() {
            Expression::Call(callee, arguments, _) => {
                let name = match callee.expression() {
                    Expression::Identifier(name) => name,
                    _ => {
                        return Ok(None);
                    },
                };
                let parent = match self.find_parent(outer_local, outer_self, name.as_str()) {
                    Some(ty) => ty,
                    None => {
                        return Ok(Some(name.clone()));
                    },
                };
                let mut functions: Vec<&'a ExpressionBox> = Vec::new();
                assert(pointees(functions@) =~= Seq::empty());
                self.walk_each(arguments, fuel, &mut functions, errors);
                self.process_functions(&functions, fuel, errors);
                match self.adopt_parent(call, arguments, &parent, own_self, fuel) {
                    Ok(()) => Ok(Some(name.clone())),
                    Err(e) => Err(e),
                }
            },
            _ => Ok(None),
        }
    }
}

} // verus!
