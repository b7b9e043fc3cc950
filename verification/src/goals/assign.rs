use vstd::prelude::*;
use crate::error::TypeError;
use crate::goals::model::walk_of;
use crate::goals::steps::{TargetRef, target_of};
use crate::parse::expression::{Expression, ExpressionBox};
use crate::parse::operators::AssignmentOperator;
use crate::solver::Solver;
use crate::ty::{Field, RecordOp};
use crate::unify::unit_view;

verus! {

impl<'a> Solver<'a> {
    /// Gives the target of an assignment the field that was assigned.
    pub fn assign_to(&mut self, expr: &'a ExpressionBox, field: Field, fuel: usize, functions: &mut Vec<&'a ExpressionBox>, errors: &mut Vec<TypeError>) -> (out:
        Result<(), TypeError>)
        ensures
            (walk_of(final(self)@, final(functions)@, final(errors)@), unit_view(out)) == walk_of(
                old(self)@,
                old(functions)@,
                old(errors)@,
            ).assign_to(*expr, field@, fuel as nat),
        decreases fuel, 2nat, *expr, 0nat,
    {
        match expr.expression() {
            Expression::Assignment(assignment) => match target_of(assignment) {
                TargetRef::Name(name) => {
                    let scope = self.scope_of(name.as_str());
                    self.apply_at(scope, name.as_str(), field)
                },
                TargetRef::Current(name) => {
                    let target = self.current_self_var();
                    self.apply_at(target, name.as_str(), field)
                },
                TargetRef::Global(name) => self.apply_global(name.as_str(), field),
                TargetRef::Member(object, name) => {
                    match self.visit_expr(object, fuel, functions, errors) {
                        Ok(()) => {},
                        Err(e) => {
                            return Err(e);
                        },
                    }
                    self.constrain_field(object, name.as_str(), field)
                },
                TargetRef::Other => self.visit_expr(&assignment.left, fuel, functions, errors),
            },
            _ => Ok(()),
        }
    }

    /// Walks an assignment: the value first, then the target takes its type.
    pub fn visit_assignment(&mut self, expr: &'a ExpressionBox, fuel: usize, functions: &mut Vec<&'a ExpressionBox>, errors: &mut Vec<TypeError>) -> (out:
        Result<(), TypeError>)
        ensures
            (walk_of(final(self)@, final(functions)@, final(errors)@), unit_view(out)) == walk_of(
                old(self)@,
                old(functions)@,
                old(errors)@,
            ).visit_assignment(*expr, fuel as nat),
        decreases fuel, 2nat, *expr, 1nat,
    {
        match expr.expression() {
            Expression::Assignment(assignment) => {
                match self.visit_expr(&assignment.right, fuel, functions, errors) {
                    Ok(()) => {},
                    Err(e) => {
                        return Err(e);
                    },
                }
                let right_ty = match self.canonize(&assignment.right) {
                    Ok(ty) => ty,
                    Err(e) => {
                        return Err(e);
                    },
                };
                match assignment.operator {
                    AssignmentOperator::Equal => self.assign_to(
                        expr,
                        Field { ty: right_ty, location: expr.location(), op: RecordOp::Write },
                        fuel,
                        functions,
                        errors,
                    ),
                    _ => self.visit_expr(&assignment.left, fuel, functions, errors),
                }
            },
            _ => Ok(()),
        }
    }
}

} // verus!
