use vstd::prelude::*;
use crate::error::TypeError;
use crate::goals::model::{declarations_of, walk_of};
use crate::goals::steps::note_error;
use crate::location::Location;
use crate::parse::expression::{ExpressionBox, pointees};
use crate::parse::statement::{LocalVariable, Statement, StatementBox};
use crate::solver::Solver;
use crate::ty::{Field, RecordOp, Ty};
use crate::unify::{outcome_view, unit_view};

verus! {

impl<'a> Solver<'a> {
    /// Constrains what the function being elaborated returns to the type of `value`.
    pub fn return_value(&mut self, value: &ExpressionBox, location: Location) -> (out: Result<
        (),
        TypeError,
    >)
        ensures
            (final(self)@, unit_view(out)) == ({
                let (walk, out) = walk_of(old(self)@, Seq::empty(), Seq::empty()).return_value(
                    *value,
                    location,
                );
                (walk.solver, out)
            }),
    {
        let ty = self.canonize(value)?;
        self.constrain_return(ty, location)
    }

    /// Declares a local variable with the type `ty`, where there is one.
    pub fn declare(&mut self, name: &str, ty: Result<Ty, TypeError>, location: Location) -> (out:
        Result<(), TypeError>)
        ensures
            (final(self)@, unit_view(out)) == ({
                let (walk, out) = walk_of(old(self)@, Seq::empty(), Seq::empty()).declare(
                    name@,
                    outcome_view(ty),
                    location,
                );
                (walk.solver, out)
            }),
    {
        let ty = ty?;
        let scope = self.local_var();
        self.apply_at(scope, name, Field { ty, location, op: RecordOp::Write })
    }

    /// Declares the local variables of a statement.
    pub fn declare_all(&mut self, stmt: &'a StatementBox, declarations: &'a Vec<LocalVariable>, fuel: usize, functions: &mut Vec<&'a ExpressionBox>, errors: &mut Vec<TypeError>) -> (out:
        Result<(), TypeError>)
        requires
            *stmt.0 matches Statement::LocalVariableSeries(s) && s.declarations == declarations,
        ensures
            (walk_of(final(self)@, final(functions)@, final(errors)@), unit_view(out)) == walk_of(
                old(self)@,
                old(functions)@,
                old(errors)@,
            ).declare_from(*stmt, 0, fuel as nat),
        decreases fuel, 2nat, *stmt, 1nat,
    {
        let location = stmt.location();
        let mut i: usize = 0;
        while i < declarations.len()
            invariant
                i <= declarations.len(),
                *stmt.0 matches Statement::LocalVariableSeries(s) && s.declarations == declarations,
                location == stmt.1,
                walk_of(self@, functions@, errors@).declare_from(*stmt, i as nat, fuel as nat)
                    == walk_of(old(self)@, old(functions)@, old(errors)@).declare_from(
                    *stmt,
                    0,
                    fuel as nat,
                ),
            decreases declarations.len() - i,
        {
            let declaration = &declarations[i];
            assert(declarations_of(*stmt)[i as int] == *declaration);
            let ty = match &declaration.1 {
                None => Ok(Ty::Uninitialized),
                Some(value) => {
                    let out = self.visit_expr(value, fuel, functions, errors);
                    note_error(errors, out);
                    self.canonize(value)
                },
            };
            match self.declare(declaration.0.as_str(), ty, location) {
                Ok(()) => {},
                Err(e) => {
                    return Err(e);
                },
            }
            i += 1;
        }
        Ok(())
    }

    /// Walks the statements below `stmt` and notes their errors.
    pub fn walk_statements_below(&mut self, stmt: &'a StatementBox, fuel: usize, functions: &mut Vec<&'a ExpressionBox>, errors: &mut Vec<TypeError>)
        ensures
            walk_of(final(self)@, final(functions)@, final(errors)@) == walk_of(
                old(self)@,
                old(functions)@,
                old(errors)@,
            ).visit_child_statements(*stmt, 0, fuel as nat),
        decreases fuel, 2nat, *stmt, 1nat,
    {
        let statements = stmt.statement().visit_child_statements();
        let mut i: usize = 0;
        while i < statements.len()
            invariant
                i <= statements.len(),
                pointees(statements@) == stmt.0.child_statements(),
                walk_of(self@, functions@, errors@).visit_child_statements(
                    *stmt,
                    i as nat,
                    fuel as nat,
                ) == walk_of(old(self)@, old(functions)@, old(errors)@).visit_child_statements(
                    *stmt,
                    0,
                    fuel as nat,
                ),
            decreases statements.len() - i,
        {
            proof {
                crate::parse::statement::lemma_child_statement_decreases(*stmt, i as int);
            }
            assert(*statements@[i as int] == pointees(statements@)[i as int]);
            let out = self.visit_stmt(statements[i], fuel, functions, errors);
            note_error(errors, out);
            i += 1;
        }
    }

    /// Walks the expressions below `stmt` and notes their errors.
    pub fn walk_expressions_below(&mut self, stmt: &'a StatementBox, fuel: usize, functions: &mut Vec<&'a ExpressionBox>, errors: &mut Vec<TypeError>)
        ensures
            walk_of(final(self)@, final(functions)@, final(errors)@) == walk_of(
                old(self)@,
                old(functions)@,
                old(errors)@,
            ).visit_child_expressions(*stmt, 0, fuel as nat),
        decreases fuel, 2nat, *stmt, 1nat,
    {
        let expressions = stmt.statement().visit_child_expressions();
        let mut i: usize = 0;
        while i < expressions.len()
            invariant
                i <= expressions.len(),
                pointees(expressions@) == stmt.0.child_expressions(),
                walk_of(self@, functions@, errors@).visit_child_expressions(
                    *stmt,
                    i as nat,
                    fuel as nat,
                ) == walk_of(old(self)@, old(functions)@, old(errors)@).visit_child_expressions(
                    *stmt,
                    0,
                    fuel as nat,
                ),
            decreases expressions.len() - i,
        {
            proof {
                crate::parse::statement::lemma_child_expression_decreases(*stmt, i as int);
            }
            assert(*expressions@[i as int] == pointees(expressions@)[i as int]);
            let out = self.visit_expr(expressions[i], fuel, functions, errors);
            note_error(errors, out);
            i += 1;
        }
    }

    /// Walks a statement: applies the rule of its kind, or walks the statements and the
    /// expressions directly below it.
    pub fn visit_stmt(&mut self, stmt: &'a StatementBox, fuel: usize, functions: &mut Vec<&'a ExpressionBox>, errors: &mut Vec<TypeError>) -> (out:
        Result<(), TypeError>)
        ensures
            (walk_of(final(self)@, final(functions)@, final(errors)@), unit_view(out)) == walk_of(
                old(self)@,
                old(functions)@,
                old(errors)@,
            ).visit_stmt(*stmt, fuel as nat),
        decreases fuel, 2nat, *stmt, 2nat,
    {
        let location = stmt.location();
        match stmt.statement() {
            Statement::LocalVariableSeries(series) => self.declare_all(
                stmt,
                &series.declarations,
                fuel,
                functions,
                errors,
            ),
            Statement::Return(ret) => match &ret.value {
                Some(value) => {
                    let out = self.visit_expr(value, fuel, functions, errors);
                    note_error(errors, out);
                    self.return_value(value, location)
                },
                None => self.constrain_return(Ty::Undefined, location),
            },
            Statement::GlobalvarDeclaration(globalvar) => self.apply_global(
                globalvar.name.as_str(),
                Field { ty: Ty::Uninitialized, location, op: RecordOp::Write },
            ),
            _ => {
                self.walk_statements_below(stmt, fuel, functions, errors);
                self.walk_expressions_below(stmt, fuel, functions, errors);
                Ok(())
            },
        }
    }
}

} // verus!
