use vstd::prelude::*;
use crate::error::{TypeError, errors_view};
use crate::goals::model::{run_of, walk_of};
use crate::goals::steps::{note_error, push_error};
use crate::parse::expression::{ExpressionBox, pointees};
use crate::parse::statement::{Statement, StatementBox};
use crate::solver::Solver;
use crate::ty::{Ty, Var};

verus! {

impl<'a> Solver<'a> {
    /// Runs inference over a list of top-level statements, as deep as the solver goes, and
    /// returns the errors it met, in the order it met them.
    pub fn process_statements(&mut self, stmts: &'a Vec<StatementBox>) -> (out: Result<
        (),
        Vec<TypeError>,
    >)
        ensures
            final(self)@ == old(self)@.infer(stmts@).solver,
            match out {
                Ok(()) => old(self)@.infer(stmts@).errors.len() == 0,
                Err(errors) => errors@.len() > 0 && errors_view(errors@) == old(self)@.infer(
                    stmts@,
                ).errors,
            },
    {
        let mut errors: Vec<TypeError> = Vec::new();
        assert(errors_view(errors@) =~= Seq::empty());
        let fuel = self.depth_limit();
        self.process_statements_in(stmts, fuel, &mut errors);
        if errors.len() == 0 {
            Ok(())
        } else {
            Err(errors)
        }
    }

    /// Walks the statements of a list and notes their errors.
    pub fn walk_statements(&mut self, stmts: &'a Vec<StatementBox>, fuel: usize, functions: &mut Vec<&'a ExpressionBox>, errors: &mut Vec<TypeError>)
        ensures
            walk_of(final(self)@, final(functions)@, final(errors)@) == walk_of(
                old(self)@,
                old(functions)@,
                old(errors)@,
            ).visit_statements(stmts@, 0, fuel as nat),
        decreases fuel, 2nat, *stmts, 1nat,
    {
        let mut i: usize = 0;
        while i < stmts.len()
            invariant
                i <= stmts.len(),
                walk_of(self@, functions@, errors@).visit_statements(stmts@, i as nat, fuel as nat)
                    == walk_of(old(self)@, old(functions)@, old(errors)@).visit_statements(
                    stmts@,
                    0,
                    fuel as nat,
                ),
            decreases stmts.len() - i,
        {
            let out = self.visit_stmt(&stmts[i], fuel, functions, errors);
            note_error(errors, out);
            i += 1;
        }
    }

    /// Walks a list of statements, then elaborates the functions met on the way.
    pub fn process_statements_in(&mut self, stmts: &'a Vec<StatementBox>, fuel: usize, errors: &mut Vec<TypeError>)
        ensures
            run_of(final(self)@, final(errors)@) == run_of(old(self)@, old(errors)@).process_statements_in(
                stmts@,
                fuel as nat,
            ),
        decreases fuel, 2nat, *stmts, 2nat,
    {
        let mut functions: Vec<&'a ExpressionBox> = Vec::new();
        assert(pointees(functions@) =~= Seq::empty());
        self.walk_statements(stmts, fuel, &mut functions, errors);
        self.process_functions(&functions, fuel, errors);
    }

    /// Elaborates one function met during a walk and unifies it with its own variable.
    pub fn process_one(&mut self, function: &'a ExpressionBox, fuel: usize, errors: &mut Vec<TypeError>)
        ensures
            run_of(final(self)@, final(errors)@) == run_of(old(self)@, old(errors)@).process_one(
                *function,
                fuel as nat,
            ),
        decreases fuel, 1nat, Var::Return, 1nat,
    {
        let var = self.var_for(function);
        match self.elaborate(var, fuel, errors) {
            Ok(Some(signature)) => {
                let out = self.unify_tys(&Ty::Var(var), &signature, function.location());
                note_error(errors, out);
            },
            Ok(None) => {},
            Err(e) => {
                push_error(errors, e);
            },
        }
    }

    /// Elaborates the functions met during a walk and unifies each with its own variable.
    pub fn process_functions(&mut self, functions: &Vec<&'a ExpressionBox>, fuel: usize, errors: &mut Vec<TypeError>)
        ensures
            run_of(final(self)@, final(errors)@) == run_of(old(self)@, old(errors)@).process_functions(
                pointees(functions@),
                0,
                fuel as nat,
            ),
        decreases fuel, 1nat, Var::Return, 2nat,
    {
        let mut i: usize = 0;
        while i < functions.len()
            invariant
                i <= functions.len(),
                run_of(self@, errors@).process_functions(pointees(functions@), i as nat, fuel as nat)
                    == run_of(old(self)@, old(errors)@).process_functions(
                    pointees(functions@),
                    0,
                    fuel as nat,
                ),
            decreases functions.len() - i,
        {
            let function = functions[i];
            assert(*function == pointees(functions@)[i as int]);
            self.process_one(function, fuel, errors);
            i += 1;
        }
    }

    /// Walks one statement, then elaborates the functions met on the way.
    pub fn process_statement(&mut self, stmt: &'a StatementBox, fuel: usize, errors: &mut Vec<TypeError>)
        ensures
            run_of(final(self)@, final(errors)@) == run_of(old(self)@, old(errors)@).process_statement(
                *stmt,
                fuel as nat,
            ),
        decreases fuel, 2nat, *stmt, 3nat,
    {
        let mut functions: Vec<&'a ExpressionBox> = Vec::new();
        assert(pointees(functions@) =~= Seq::empty());
        let out = self.visit_stmt(stmt, fuel, &mut functions, errors);
        note_error(errors, out);
        self.process_functions(&functions, fuel, errors);
    }

    /// Walks the body of a function, then elaborates the functions met on the way.
    #[verifier::rlimit(100)]
    pub fn process_body(&mut self, body: &'a StatementBox, fuel: usize, errors: &mut Vec<TypeError>)
        ensures
            run_of(final(self)@, final(errors)@) == run_of(old(self)@, old(errors)@).process_body(
                *body,
                fuel as nat,
            ),
        decreases fuel, 2nat, *body, 4nat,
    {
        match body.statement() {
            Statement::Block(statements) => {
                self.process_statements_in(statements, fuel, errors);
            },
            _ => {
                self.process_statement(body, fuel, errors);
            },
        }
    }
}

} // verus!
