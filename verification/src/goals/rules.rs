use vstd::prelude::*;
use crate::error::TypeError;
use crate::parse::expression::{Expression, ExpressionBox};
use crate::solver::Solver;
use crate::ty::Ty;
use crate::unify::unit_view;

verus! {

impl<'a> Solver<'a> {
    /// Applies the rule of an expression's kind, after the expressions below it were walked.
    pub fn constrain_expr(&mut self, expr: &'a ExpressionBox, fuel: usize) -> (out: Result<
        (),
        TypeError,
    >)
        ensures
            (final(self)@, unit_view(out)) == old(self)@.constrain_expr(*expr, fuel as nat),
        decreases fuel, 2nat, *expr, 0nat,
    {
        match expr.expression() {
            Expression::FunctionDeclaration(_, _, _, _, _) => Ok(()),
            Expression::Assignment(_) => Ok(()),
            Expression::Logical(left, _, right) => self.constrain_logical(expr, left, right),
            Expression::Equality(left, _, right) => self.constrain_equality(expr, left, right),
            Expression::Evaluation(left, _, right) => self.constrain_evaluation(expr, left, right),
            Expression::NullCoalecence(_, right) => self.expr_eq_expr(expr, right),
            Expression::Ternary(ternary) => self.constrain_ternary(
                expr,
                &ternary.condition,
                &ternary.true_value,
                &ternary.false_value,
            ),
            Expression::Unary(op, right) => {
                if op.is_logical() {
                    self.constrain_operand(expr, right, Ty::Bool)
                } else {
                    self.constrain_operand(expr, right, Ty::Real)
                }
            },
            Expression::Postfix(left, _) => self.constrain_operand(expr, left, Ty::Real),
            Expression::Access(scope, member) => self.constrain_access(expr, scope, member),
            Expression::Call(left, arguments, _) => self.constrain_call(expr, left, arguments, fuel),
            Expression::Grouping(inner) => self.expr_eq_expr(expr, inner),
            Expression::Identifier(name) => self.constrain_identifier(expr, name.as_str()),
            Expression::Literal(literal) => self.constrain_literal(expr, literal),
        }
    }
}

} // verus!
