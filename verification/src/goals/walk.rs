use vstd::prelude::*;
use crate::error::TypeError;
use crate::goals::model::{first_visited, walk_of};
use crate::goals::steps::note_error;
use crate::parse::expression::{Expression, ExpressionBox, Scope, pointees};
use crate::solver::Solver;
use crate::unify::unit_view;

verus! {

/// Where the walk over the expressions below an expression starts.
pub fn start_of(expr: &ExpressionBox) -> (out: usize)
    ensures
        out == first_visited(*expr),
{
    match expr.expression() {
        Expression::Access(Scope::Dot(_), _) => 1,
        Expression::Access(Scope::Global, _) => 1,
        Expression::Access(Scope::Current, _) => 1,
        _ => 0,
    }
}

impl<'a> Solver<'a> {
    /// Walks the expressions below `expr` and notes their errors.
    pub fn walk_children(&mut self, expr: &'a ExpressionBox, fuel: usize, functions: &mut Vec<&'a ExpressionBox>, errors: &mut Vec<TypeError>)
        ensures
            walk_of(final(self)@, final(functions)@, final(errors)@) == walk_of(
                old(self)@,
                old(functions)@,
                old(errors)@,
            ).visit_children(*expr, first_visited(*expr), fuel as nat),
        decreases fuel, 2nat, *expr, 1nat,
    {
        let children = expr.expression().visit_child_expressions();
        let mut i: usize = start_of(expr);
        while i < children.len()
            invariant
                pointees(children@) == expr.0.child_expressions(),
                walk_of(self@, functions@, errors@).visit_children(*expr, i as nat, fuel as nat)
                    == walk_of(old(self)@, old(functions)@, old(errors)@).visit_children(
                    *expr,
                    first_visited(*expr),
                    fuel as nat,
                ),
            decreases children.len() - i,
        {
            proof {
                crate::parse::expression::lemma_child_expression_decreases(*expr, i as int);
            }
            assert(*children@[i as int] == pointees(children@)[i as int]);
            let out = self.visit_expr(children[i], fuel, functions, errors);
            note_error(errors, out);
            i += 1;
        }
    }

    /// Walks an expression: a function is kept for later, an assignment is applied to its
    /// target, and any other expression has the expressions below it walked before the rule
    /// of its kind is applied.
    pub fn visit_expr(&mut self, expr: &'a ExpressionBox, fuel: usize, functions: &mut Vec<&'a ExpressionBox>, errors: &mut Vec<TypeError>) -> (out:
        Result<(), TypeError>)
        ensures
            (walk_of(final(self)@, final(functions)@, final(errors)@), unit_view(out)) == walk_of(
                old(self)@,
                old(functions)@,
                old(errors)@,
            ).visit_expr(*expr, fuel as nat),
        decreases fuel, 2nat, *expr, 3nat,
    {
        match expr.expression() {
            Expression::FunctionDeclaration(name, _, _, _, _) => self.keep_function(
                expr,
                name,
                functions,
            ),
            Expression::Assignment(_) => self.visit_assignment(expr, fuel, functions, errors),
            _ => {
                self.walk_children(expr, fuel, functions, errors);
                self.constrain_expr(expr, fuel)
            },
        }
    }
}

} // verus!
