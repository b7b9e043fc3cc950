//! Records only grow under the walk over a program.

use vstd::prelude::*;
use crate::goals::model::{
    Run, Target, Walk, declarations_of, first_visited, stmt_steps,
};
use crate::laws::growth::{lemma_grows_reflexive, lemma_grows_transitive};
use crate::laws::growth_rules::{
    lemma_adopt_fields_grows,
    lemma_apply_at_grows,
    lemma_apply_global_grows,
    lemma_canonize_all_grows,
    lemma_canonize_grows,
    lemma_constrain_access_grows,
    lemma_constrain_equality_grows,
    lemma_constrain_evaluation_grows,
    lemma_constrain_field_grows,
    lemma_constrain_identifier_grows,
    lemma_constrain_literal_grows,
    lemma_constrain_logical_grows,
    lemma_constrain_operand_grows,
    lemma_constrain_return_grows,
    lemma_constrain_ternary_grows,
    lemma_expr_eq_expr_grows,
    lemma_same_table_grows,
    lemma_unify_tys_grows,
};
use crate::location::Location;
use crate::parse::expression::{Constructor, Expression, ExpressionBox, Parameter};
use crate::parse::operators::{AssignmentOperator, UnaryOperator};
use crate::parse::statement::{Statement, StatementBox};
use crate::solver::{SolverV, TemplateV};
use crate::ty::{FieldV, FuncV, RecordOp, TyV, Var};

verus! {

/// Keeping a function for elaboration takes nothing away.
pub proof fn lemma_keep_function_grows(w: Walk, expr: ExpressionBox, name: Option<String>)
    ensures
        w.solver.grows_into(w.keep_function(expr, name).0.solver),
{
    lemma_grows_reflexive(w.solver);
    let var = w.solver.var_for(expr);
    let kept = w.solver.with_template(
        TemplateV {
            var,
            function: expr,
            self_scope: w.solver.self_var(),
            local_scope: w.solver.local_var(),
        },
    );
    lemma_same_table_grows(w.solver, kept);
    if let Some(name) = name {
        let field = FieldV { ty: TyV::Var(var), location: expr.1, op: RecordOp::Write };
        lemma_apply_at_grows(kept, kept.self_var(), name@, field);
        lemma_grows_transitive(w.solver, kept, kept.apply_at(kept.self_var(), name@, field).0);
    }
}

/// Walking an expression takes nothing away.
pub proof fn lemma_visit_expr_grows(w: Walk, expr: ExpressionBox, fuel: nat)
    ensures
        w.solver.grows_into(w.visit_expr(expr, fuel).0.solver),
    decreases fuel, 2nat, expr, expr.0.child_expressions().len() + 2,
{
    lemma_grows_reflexive(w.solver);
    match *expr.0 {
        Expression::FunctionDeclaration(name, _, _, _, _) => {
            lemma_keep_function_grows(w, expr, name);
        },
        Expression::Assignment(_) => {
            lemma_visit_assignment_grows(w, expr, fuel);
        },
        _ => {
            lemma_visit_children_grows(w, expr, first_visited(expr), fuel);
            let below = w.visit_children(expr, first_visited(expr), fuel);
            lemma_constrain_expr_grows(below.solver, expr, fuel);
            lemma_grows_transitive(w.solver, below.solver, below.solver.constrain_expr(expr, fuel).0);
        },
    }
}

/// Walking the expressions below an expression takes nothing away.
pub proof fn lemma_visit_children_grows(w: Walk, expr: ExpressionBox, i: nat, fuel: nat)
    ensures
        w.solver.grows_into(w.visit_children(expr, i, fuel).solver),
    decreases fuel, 2nat, expr, expr.0.child_expressions().len() - i + 1,
{
    lemma_grows_reflexive(w.solver);
    let children = expr.0.child_expressions();
    if i < children.len() {
        crate::parse::expression::lemma_child_expression_decreases(expr, i as int);
        lemma_visit_expr_grows(w, children[i as int], fuel);
        let (after, out) = w.visit_expr(children[i as int], fuel);
        let noted = after.note(out);
        lemma_visit_children_grows(noted, expr, i + 1, fuel);
        lemma_grows_transitive(w.solver, noted.solver, noted.visit_children(expr, i + 1, fuel).solver);
    }
}

/// Walking an assignment takes nothing away.
pub proof fn lemma_visit_assignment_grows(w: Walk, expr: ExpressionBox, fuel: nat)
    ensures
        w.solver.grows_into(w.visit_assignment(expr, fuel).0.solver),
    decreases fuel, 2nat, expr, 1nat,
{
    lemma_grows_reflexive(w.solver);
    match *expr.0 {
        Expression::Assignment(assignment) => {
            lemma_visit_expr_grows(w, assignment.right, fuel);
            let (valued, first) = w.visit_expr(assignment.right, fuel);
            if first is Ok {
                lemma_canonize_grows(valued.solver, assignment.right);
                let (resolved, right_ty) = valued.solver.canonize(assignment.right);
                let ready = valued.with_solver(resolved);
                lemma_grows_transitive(w.solver, valued.solver, resolved);
                if let Ok(right_ty) = right_ty {
                    if assignment.operator != AssignmentOperator::Equal {
                        lemma_visit_expr_grows(ready, assignment.left, fuel);
                        lemma_grows_transitive(
                            w.solver,
                            resolved,
                            ready.visit_expr(assignment.left, fuel).0.solver,
                        );
                    } else {
                        let field = FieldV { ty: right_ty, location: expr.1, op: RecordOp::Write };
                        lemma_assign_to_grows(ready, expr, field, fuel);
                        lemma_grows_transitive(
                            w.solver,
                            resolved,
                            ready.assign_to(expr, field, fuel).0.solver,
                        );
                    }
                }
            }
        },
        _ => {},
    }
}

/// Giving the target of an assignment its field takes nothing away.
pub proof fn lemma_assign_to_grows(w: Walk, expr: ExpressionBox, field: FieldV, fuel: nat)
    ensures
        w.solver.grows_into(w.assign_to(expr, field, fuel).0.solver),
    decreases fuel, 2nat, expr, 0nat,
{
    lemma_grows_reflexive(w.solver);
    match *expr.0 {
        Expression::Assignment(assignment) => match assignment.target() {
            Target::Name(name) => {
                lemma_apply_at_grows(w.solver, w.solver.scope_of(name), name, field);
            },
            Target::Current(name) => {
                lemma_apply_at_grows(w.solver, w.solver.self_var(), name, field);
            },
            Target::Global(name) => {
                lemma_apply_global_grows(w.solver, name, field);
            },
            Target::Member(object, name) => {
                assert(decreases_to!(expr => assignment.left));
                assert(decreases_to!(assignment.left => object));
                lemma_visit_expr_grows(w, object, fuel);
                let (walked, second) = w.visit_expr(object, fuel);
                if second is Ok {
                    lemma_constrain_field_grows(walked.solver, object, name, field);
                    lemma_grows_transitive(
                        w.solver,
                        walked.solver,
                        walked.solver.constrain_field(object, name, field).0,
                    );
                }
            },
            Target::Other => {
                lemma_visit_expr_grows(w, assignment.left, fuel);
            },
        },
        _ => {},
    }
}

/// Walking the expressions of a list takes nothing away.
pub proof fn lemma_visit_each_grows(w: Walk, exprs: Seq<ExpressionBox>, i: nat, fuel: nat)
    ensures
        w.solver.grows_into(w.visit_each(exprs, i, fuel).solver),
    decreases fuel, 2nat, exprs, exprs.len() - i + 1,
{
    lemma_grows_reflexive(w.solver);
    if i < exprs.len() {
        lemma_visit_expr_grows(w, exprs[i as int], fuel);
        let (after, out) = w.visit_expr(exprs[i as int], fuel);
        let noted = after.note(out);
        lemma_visit_each_grows(noted, exprs, i + 1, fuel);
        lemma_grows_transitive(w.solver, noted.solver, noted.visit_each(exprs, i + 1, fuel).solver);
    }
}

/// Walking the statements of a list takes nothing away.
pub proof fn lemma_visit_statements_grows(w: Walk, stmts: Seq<StatementBox>, i: nat, fuel: nat)
    ensures
        w.solver.grows_into(w.visit_statements(stmts, i, fuel).solver),
    decreases fuel, 2nat, stmts, stmts.len() - i + 1,
{
    lemma_grows_reflexive(w.solver);
    if i < stmts.len() {
        lemma_visit_stmt_grows(w, stmts[i as int], fuel);
        let (after, out) = w.visit_stmt(stmts[i as int], fuel);
        let noted = after.note(out);
        lemma_visit_statements_grows(noted, stmts, i + 1, fuel);
        lemma_grows_transitive(
            w.solver,
            noted.solver,
            noted.visit_statements(stmts, i + 1, fuel).solver,
        );
    }
}

/// Constraining what a function returns to the type of a value takes nothing away.
pub proof fn lemma_return_value_grows(w: Walk, value: ExpressionBox, location: Location)
    ensures
        w.solver.grows_into(w.return_value(value, location).0.solver),
{
    lemma_grows_reflexive(w.solver);
    lemma_canonize_grows(w.solver, value);
    let (resolved, ty) = w.solver.canonize(value);
    if let Ok(ty) = ty {
        lemma_constrain_return_grows(resolved, ty, location);
        lemma_grows_transitive(w.solver, resolved, resolved.constrain_return(ty, location).0);
    }
}

/// Walking a statement takes nothing away.
pub proof fn lemma_visit_stmt_grows(w: Walk, stmt: StatementBox, fuel: nat)
    ensures
        w.solver.grows_into(w.visit_stmt(stmt, fuel).0.solver),
    decreases fuel, 2nat, stmt, stmt_steps(stmt),
{
    lemma_grows_reflexive(w.solver);
    match *stmt.0 {
        Statement::LocalVariableSeries(_) => {
            lemma_declare_from_grows(w, stmt, 0, fuel);
        },
        Statement::Return(ret) => match ret.value {
            Some(value) => {
                lemma_visit_expr_grows(w, value, fuel);
                let (walked, out) = w.visit_expr(value, fuel);
                let noted = walked.note(out);
                lemma_return_value_grows(noted, value, stmt.1);
                lemma_grows_transitive(
                    w.solver,
                    noted.solver,
                    noted.return_value(value, stmt.1).0.solver,
                );
            },
            None => {
                lemma_constrain_return_grows(w.solver, TyV::Undefined, stmt.1);
            },
        },
        Statement::GlobalvarDeclaration(globalvar) => {
            lemma_apply_global_grows(
                w.solver,
                globalvar.name@,
                FieldV { ty: TyV::Uninitialized, location: stmt.1, op: RecordOp::Write },
            );
        },
        _ => {
            lemma_visit_child_statements_grows(w, stmt, 0, fuel);
            let first = w.visit_child_statements(stmt, 0, fuel);
            lemma_visit_child_expressions_grows(first, stmt, 0, fuel);
            lemma_grows_transitive(
                w.solver,
                first.solver,
                first.visit_child_expressions(stmt, 0, fuel).solver,
            );
        },
    }
}

/// Declaring the local variables of a statement takes nothing away.
pub proof fn lemma_declare_from_grows(w: Walk, stmt: StatementBox, i: nat, fuel: nat)
    ensures
        w.solver.grows_into(w.declare_from(stmt, i, fuel).0.solver),
    decreases fuel, 2nat, stmt, declarations_of(stmt).len() - i + 1,
{
    lemma_grows_reflexive(w.solver);
    let declarations = declarations_of(stmt);
    if i < declarations.len() {
        let declaration = declarations[i as int];
        let (valued, ty) = match declaration.1 {
            None => (w, Ok(TyV::Uninitialized)),
            Some(value) => {
                let (walked, out) = w.visit_expr(value, fuel);
                let noted = walked.note(out);
                let (resolved, ty) = noted.solver.canonize(value);
                (noted.with_solver(resolved), ty)
            },
        };
        if let Some(value) = declaration.1 {
            let series = stmt.0->LocalVariableSeries_0;
            assert(decreases_to!(stmt => series.declarations@));
            assert(decreases_to!(series.declarations@ => series.declarations@[i as int]));
            assert(decreases_to!(declaration => declaration.1));
            assert(decreases_to!(declaration.1 => value));
            lemma_visit_expr_grows(w, value, fuel);
            let (walked, out) = w.visit_expr(value, fuel);
            lemma_canonize_grows(walked.solver, value);
            lemma_grows_transitive(w.solver, walked.solver, valued.solver);
        }
        if let Ok(ty) = ty {
            let field = FieldV { ty, location: stmt.1, op: RecordOp::Write };
            lemma_apply_at_grows(valued.solver, valued.solver.local_var(), declaration.0@, field);
        }
        let (declared, out) = valued.declare(declaration.0@, ty, stmt.1);
        lemma_grows_transitive(w.solver, valued.solver, declared.solver);
        if out is Ok {
            lemma_declare_from_grows(declared, stmt, i + 1, fuel);
            lemma_grows_transitive(
                w.solver,
                declared.solver,
                declared.declare_from(stmt, i + 1, fuel).0.solver,
            );
        }
    }
}

/// Walking the statements below a statement takes nothing away.
pub proof fn lemma_visit_child_statements_grows(w: Walk, stmt: StatementBox, i: nat, fuel: nat)
    ensures
        w.solver.grows_into(w.visit_child_statements(stmt, i, fuel).solver),
    decreases fuel, 2nat, stmt, stmt.0.child_statements().len() - i + 1,
{
    lemma_grows_reflexive(w.solver);
    let children = stmt.0.child_statements();
    if i < children.len() {
        crate::parse::statement::lemma_child_statement_decreases(stmt, i as int);
        lemma_visit_stmt_grows(w, children[i as int], fuel);
        let (after, out) = w.visit_stmt(children[i as int], fuel);
        let noted = after.note(out);
        lemma_visit_child_statements_grows(noted, stmt, i + 1, fuel);
        lemma_grows_transitive(
            w.solver,
            noted.solver,
            noted.visit_child_statements(stmt, i + 1, fuel).solver,
        );
    }
}

/// Walking the expressions below a statement takes nothing away.
pub proof fn lemma_visit_child_expressions_grows(w: Walk, stmt: StatementBox, i: nat, fuel: nat)
    ensures
        w.solver.grows_into(w.visit_child_expressions(stmt, i, fuel).solver),
    decreases fuel, 2nat, stmt, stmt.0.child_expressions().len() - i + 1,
{
    lemma_grows_reflexive(w.solver);
    let children = stmt.0.child_expressions();
    if i < children.len() {
        crate::parse::statement::lemma_child_expression_decreases(stmt, i as int);
        lemma_visit_expr_grows(w, children[i as int], fuel);
        let (after, out) = w.visit_expr(children[i as int], fuel);
        let noted = after.note(out);
        lemma_visit_child_expressions_grows(noted, stmt, i + 1, fuel);
        lemma_grows_transitive(
            w.solver,
            noted.solver,
            noted.visit_child_expressions(stmt, i + 1, fuel).solver,
        );
    }
}

/// Adopting the fields of a parent constructor takes nothing away.
pub proof fn lemma_adopt_parent_grows(
    s: SolverV,
    call: ExpressionBox,
    arguments: Seq<ExpressionBox>,
    parent: TyV,
    own_self: Var,
    fuel: nat,
)
    ensures
        s.grows_into(s.adopt_parent(call, arguments, parent, own_self, fuel).0),
    decreases fuel, 1nat, Var::Return, 2nat,
{
    lemma_grows_reflexive(s);
    let result = s.var_for(call);
    let signature = TyV::Func(
        FuncV::Call {
            parameters: Seq::new(arguments.len(), |i: int| TyV::Var(s.var_for(arguments[i]))),
            return_type: Box::new(TyV::Var(result)),
        },
    );
    lemma_elaborate_call_grows(s, parent, signature, call.1, fuel);
    let (called, out) = s.elaborate_call(parent, signature, call.1, fuel);
    if out is Ok {
        if let Some(reached) = called.record_at(result) {
            lemma_adopt_fields_grows(called, own_self, reached.record.fields, 0);
            lemma_grows_transitive(
                s,
                called,
                called.adopt_fields(own_self, reached.record.fields, 0).0,
            );
        }
    }
}

/// Typing a call takes nothing away.
pub proof fn lemma_elaborate_call_grows(s: SolverV, callee: TyV, call: TyV, location: Location, fuel: nat)
    ensures
        s.grows_into(s.elaborate_call(callee, call, location, fuel).0),
    decreases fuel, 1nat, Var::Return, 1nat,
{
    lemma_grows_reflexive(s);
    match s.kept_callee(callee) {
        Some(root) => {
            let start = Run { solver: s, errors: Seq::empty() };
            lemma_elaborate_grows(start, root, fuel);
            let (run, out) = start.elaborate(root, fuel);
            match out {
                Ok(Some(signature)) => {
                    lemma_unify_tys_grows(run.solver, signature, call, location);
                    lemma_grows_transitive(
                        s,
                        run.solver,
                        run.solver.unify_tys(signature, call, location).0,
                    );
                },
                Ok(None) => {
                    lemma_unify_tys_grows(run.solver, callee, call, location);
                    lemma_grows_transitive(
                        s,
                        run.solver,
                        run.solver.unify_tys(callee, call, location).0,
                    );
                },
                Err(_) => {},
            }
        },
        None => {
            lemma_unify_tys_grows(s, callee, call, location);
        },
    }
}

/// The rule of a call takes nothing away.
pub proof fn lemma_constrain_call_grows(
    s: SolverV,
    expr: ExpressionBox,
    left: ExpressionBox,
    arguments: Seq<ExpressionBox>,
    fuel: nat,
)
    ensures
        s.grows_into(s.constrain_call(expr, left, arguments, fuel).0),
    decreases fuel, 1nat, Var::Return, 2nat,
{
    lemma_grows_reflexive(s);
    lemma_canonize_grows(s, left);
    let (first, callee) = s.canonize(left);
    if let Ok(callee) = callee {
        lemma_canonize_all_grows(first, arguments, Seq::empty());
        let (second, parameters) = first.canonize_all(arguments, Seq::empty());
        lemma_grows_transitive(s, first, second);
        if let Ok(parameters) = parameters {
            let call = TyV::Func(
                FuncV::Call {
                    parameters,
                    return_type: Box::new(TyV::Var(second.var_for(expr))),
                },
            );
            lemma_elaborate_call_grows(second, callee, call, expr.1, fuel);
            lemma_grows_transitive(s, second, second.elaborate_call(callee, call, expr.1, fuel).0);
        }
    }
}

/// The rule of an expression's kind takes nothing away.
pub proof fn lemma_constrain_expr_grows(s: SolverV, expr: ExpressionBox, fuel: nat)
    ensures
        s.grows_into(s.constrain_expr(expr, fuel).0),
    decreases fuel, 2nat, expr, 0nat,
{
    lemma_grows_reflexive(s);
    match *expr.0 {
        Expression::FunctionDeclaration(_, _, _, _, _) => {},
        Expression::Assignment(_) => {},
        Expression::Logical(left, _, right) => {
            lemma_constrain_logical_grows(s, expr, left, right);
        },
        Expression::Equality(left, _, right) => {
            lemma_constrain_equality_grows(s, expr, left, right);
        },
        Expression::Evaluation(left, _, right) => {
            lemma_constrain_evaluation_grows(s, expr, left, right);
        },
        Expression::NullCoalecence(_, right) => {
            lemma_expr_eq_expr_grows(s, expr, right);
        },
        Expression::Ternary(ternary) => {
            lemma_constrain_ternary_grows(
                s,
                expr,
                ternary.condition,
                ternary.true_value,
                ternary.false_value,
            );
        },
        Expression::Unary(op, right) => {
            lemma_constrain_operand_grows(
                s,
                expr,
                right,
                if op == UnaryOperator::Not {
                    TyV::Bool
                } else {
                    TyV::Real
                },
            );
        },
        Expression::Postfix(left, _) => {
            lemma_constrain_operand_grows(s, expr, left, TyV::Real);
        },
        Expression::Access(scope, member) => {
            lemma_constrain_access_grows(s, expr, scope, member);
        },
        Expression::Call(left, arguments, _) => {
            lemma_constrain_call_grows(s, expr, left, arguments@, fuel);
        },
        Expression::Grouping(inner) => {
            lemma_expr_eq_expr_grows(s, expr, inner);
        },
        Expression::Identifier(name) => {
            lemma_constrain_identifier_grows(s, expr, name@);
        },
        Expression::Literal(literal) => {
            lemma_constrain_literal_grows(s, expr, literal);
        },
    }
}

/// Elaborating a function that is kept takes nothing away.
pub proof fn lemma_elaborate_grows(run: Run, var: Var, fuel: nat)
    ensures
        run.solver.grows_into(run.elaborate(var, fuel).0.solver),
    decreases fuel, 1nat, Var::Return, 0nat,
{
    lemma_grows_reflexive(run.solver);
    if run.solver.is_template(var) && fuel > 0 {
        let template = run.solver.template_for(var);
        lemma_process_function_grows(
            run,
            template.function,
            template.self_scope,
            template.local_scope,
            (fuel - 1) as nat,
        );
    }
}

/// Elaborating a function that was met takes nothing away.
pub proof fn lemma_process_one_grows(run: Run, function: ExpressionBox, fuel: nat)
    ensures
        run.solver.grows_into(run.process_one(function, fuel).solver),
    decreases fuel, 1nat, Var::Return, 1nat,
{
    lemma_grows_reflexive(run.solver);
    let var = run.solver.var_for(function);
    lemma_elaborate_grows(run, var, fuel);
    let (after, out) = run.elaborate(var, fuel);
    if let Ok(Some(signature)) = out {
        lemma_unify_tys_grows(after.solver, TyV::Var(var), signature, function.1);
        lemma_grows_transitive(
            run.solver,
            after.solver,
            after.solver.unify_tys(TyV::Var(var), signature, function.1).0,
        );
    }
}

/// Elaborating the functions that were met takes nothing away.
pub proof fn lemma_process_functions_grows(run: Run, functions: Seq<ExpressionBox>, i: nat, fuel: nat)
    ensures
        run.solver.grows_into(run.process_functions(functions, i, fuel).solver),
    decreases fuel, 1nat, Var::Return, functions.len() - i + 3,
{
    lemma_grows_reflexive(run.solver);
    if i < functions.len() {
        lemma_process_one_grows(run, functions[i as int], fuel);
        let after = run.process_one(functions[i as int], fuel);
        lemma_process_functions_grows(after, functions, i + 1, fuel);
        lemma_grows_transitive(
            run.solver,
            after.solver,
            after.process_functions(functions, i + 1, fuel).solver,
        );
    }
}

/// Walking a list of statements and elaborating its functions takes nothing away.
pub proof fn lemma_process_statements_in_grows(run: Run, stmts: Seq<StatementBox>, fuel: nat)
    ensures
        run.solver.grows_into(run.process_statements_in(stmts, fuel).solver),
    decreases fuel, 2nat, stmts, stmts.len() + 2,
{
    lemma_grows_reflexive(run.solver);
    lemma_visit_statements_grows(run.walk(), stmts, 0, fuel);
    let walked = run.walk().visit_statements(stmts, 0, fuel);
    lemma_process_functions_grows(walked.run(), walked.functions, 0, fuel);
    lemma_grows_transitive(
        run.solver,
        walked.solver,
        walked.run().process_functions(walked.functions, 0, fuel).solver,
    );
}

/// Walking one statement and elaborating its functions takes nothing away.
pub proof fn lemma_process_statement_grows(run: Run, stmt: StatementBox, fuel: nat)
    ensures
        run.solver.grows_into(run.process_statement(stmt, fuel).solver),
    decreases fuel, 2nat, stmt, stmt_steps(stmt) + 1,
{
    lemma_grows_reflexive(run.solver);
    lemma_visit_stmt_grows(run.walk(), stmt, fuel);
    let (walked, out) = run.walk().visit_stmt(stmt, fuel);
    let noted = walked.note(out);
    lemma_process_functions_grows(noted.run(), noted.functions, 0, fuel);
    lemma_grows_transitive(
        run.solver,
        noted.solver,
        noted.run().process_functions(noted.functions, 0, fuel).solver,
    );
}

/// Walking the body of a function takes nothing away.
#[verifier::rlimit(100)]
pub proof fn lemma_process_body_grows(run: Run, body: StatementBox, fuel: nat)
    ensures
        run.solver.grows_into(run.process_body(body, fuel).solver),
    decreases fuel, 2nat, body, stmt_steps(body) + 2,
{
    lemma_grows_reflexive(run.solver);
    match *body.0 {
        Statement::Block(statements) => {
            lemma_process_statements_in_grows(run, statements@, fuel);
        },
        _ => {
            lemma_process_statement_grows(run, body, fuel);
        },
    }
}

/// Walking one expression and elaborating its functions takes nothing away.
pub proof fn lemma_process_expression_grows(run: Run, expr: ExpressionBox, fuel: nat)
    ensures
        run.solver.grows_into(run.process_expression(expr, fuel).solver),
    decreases fuel, 2nat, expr, expr.0.child_expressions().len() + 3,
{
    lemma_grows_reflexive(run.solver);
    lemma_visit_expr_grows(run.walk(), expr, fuel);
    let (walked, out) = run.walk().visit_expr(expr, fuel);
    let noted = walked.note(out);
    lemma_process_functions_grows(noted.run(), noted.functions, 0, fuel);
    lemma_grows_transitive(
        run.solver,
        noted.solver,
        noted.run().process_functions(noted.functions, 0, fuel).solver,
    );
}

/// Declaring the parameters of a function takes nothing away.
pub proof fn lemma_bind_parameters_grows(
    run: Run,
    parameters: Seq<Parameter>,
    scope: Var,
    done: Seq<TyV>,
    fuel: nat,
)
    ensures
        run.solver.grows_into(run.bind_parameters(parameters, scope, done, fuel).0.solver),
    decreases fuel, 3nat, Var::Return, parameters.len() - done.len() + 1,
{
    if done.len() < parameters.len() {
        let parameter = parameters[done.len() as int];
        if let Some(default_value) = parameter.1 {
            lemma_process_expression_grows(run, default_value, fuel);
        }
        let next = crate::laws::growth_steps::declared_in(run, parameters, scope, done, fuel);
        if crate::laws::growth_steps::declared_in(run, parameters, scope, done, fuel).1 is Ok {
            lemma_bind_parameters_grows(
                next.0,
                parameters,
                scope,
                done.push(next.1->Ok_0),
                fuel,
            );
        }
    }
    crate::laws::growth_steps::lemma_bind_parameters_step(run, parameters, scope, done, fuel);
}

/// Inheriting from a parent constructor takes nothing away.
pub proof fn lemma_inherit_grows(
    run: Run,
    call: ExpressionBox,
    own_self: Var,
    outer_self: Var,
    outer_local: Var,
    fuel: nat,
)
    ensures
        run.solver.grows_into(run.inherit(call, own_self, outer_self, outer_local, fuel).0.solver),
    decreases fuel, 2nat, call, 1nat,
{
    lemma_grows_reflexive(run.solver);
    match *call.0 {
        Expression::Call(callee, arguments, _) => match *callee.0 {
            Expression::Identifier(name) => {
                if let Some(parent) = run.solver.find_parent(outer_local, outer_self, name@) {
                    lemma_visit_each_grows(run.walk(), arguments@, 0, fuel);
                    let walked = run.walk().visit_each(arguments@, 0, fuel);
                    lemma_process_functions_grows(walked.run(), walked.functions, 0, fuel);
                    let elaborated = walked.run().process_functions(walked.functions, 0, fuel);
                    lemma_grows_transitive(run.solver, walked.solver, elaborated.solver);
                    lemma_adopt_parent_grows(
                        elaborated.solver,
                        call,
                        arguments@,
                        parent,
                        own_self,
                        fuel,
                    );
                    lemma_grows_transitive(
                        run.solver,
                        elaborated.solver,
                        elaborated.solver.adopt_parent(call, arguments@, parent, own_self, fuel).0,
                    );
                }
            },
            _ => {},
        },
        _ => {},
    }
}

/// Elaborating a function takes nothing away.
pub proof fn lemma_process_function_grows(
    run: Run,
    function: ExpressionBox,
    self_scope: Var,
    local_scope: Var,
    fuel: nat,
)
    ensures
        run.solver.grows_into(
            run.process_function(function, self_scope, local_scope, fuel).0.solver,
        ),
    decreases fuel, 4nat, Var::Return, 0nat,
{
    if let Expression::FunctionDeclaration(_, parameters, constructor, body, _) = *function.0 {
        let (entered, scopes) = run.solver.enter_function(constructor is Some, self_scope);
        if let Some(scopes) = scopes {
            let inside = run.with_solver(entered);
            lemma_bind_parameters_grows(inside, parameters@, scopes.own_local, Seq::empty(), fuel);
            let bound = inside.bind_parameters(
                parameters@,
                scopes.own_local,
                Seq::empty(),
                fuel,
            ).0;
            let inherited = match constructor {
                Some(Constructor(Some(call))) => bound.inherit(
                    call,
                    scopes.own_self,
                    self_scope,
                    local_scope,
                    fuel,
                ).0,
                _ => bound,
            };
            lemma_grows_reflexive(bound.solver);
            if let Some(Constructor(Some(call))) = constructor {
                lemma_inherit_grows(bound, call, scopes.own_self, self_scope, local_scope, fuel);
            }
            lemma_process_body_grows(inherited, body, fuel);
        }
    }
    crate::laws::growth_steps::lemma_process_function_step(
        run,
        function,
        self_scope,
        local_scope,
        fuel,
    );
}

/// Record monotonicity: inference takes nothing away. Every variable that stands for a
/// record before a program is walked stands for a record afterwards that holds every field of
/// it and is at least as closed, and so does the global scope, whether the walk meets errors
/// or not.
pub proof fn lemma_inference_grows(s: SolverV, stmts: Seq<StatementBox>)
    ensures
        s.grows_into(s.infer(stmts).solver),
{
    lemma_grows_reflexive(s);
    lemma_process_statements_in_grows(
        Run { solver: s, errors: Seq::empty() },
        stmts,
        s.depth_limit as nat,
    );
}

} // verus!
