//! Records only grow under the steps of an elaboration, given that they grow under its parts.

use vstd::prelude::*;
use crate::goals::model::Run;
use crate::laws::growth::{lemma_grows_reflexive, lemma_grows_transitive};
use crate::laws::growth_rules::{
    lemma_canonize_grows, lemma_enter_function_grows, lemma_leave_function_grows,
    lemma_same_table_grows,
};
use crate::parse::expression::{Constructor, Expression, ExpressionBox, Parameter};
use crate::error::TypeErrorV;
use crate::laws::growth_rules::lemma_apply_at_grows;
use crate::ty::{FieldV, RecordOp, TyV, Var};

verus! {

/// Typing a parameter takes nothing away.
pub proof fn lemma_type_parameter_grows(run: Run, parameter: Parameter)
    ensures
        run.solver.grows_into(run.type_parameter(parameter).0.solver),
{
    lemma_grows_reflexive(run.solver);
    match parameter.1 {
        None => {
            lemma_same_table_grows(run.solver, run.solver.minted());
        },
        Some(default_value) => {
            lemma_canonize_grows(run.solver, default_value);
        },
    }
}

/// The state in which the parameter at the place `done.len()` is declared, with its type.
pub open spec fn declared_in(
    run: Run,
    parameters: Seq<Parameter>,
    scope: Var,
    done: Seq<TyV>,
    fuel: nat,
) -> (Run, Result<TyV, TypeErrorV>) {
    let parameter = parameters[done.len() as int];
    let prepared = match parameter.1 {
        Some(default_value) => run.process_expression(default_value, fuel),
        None => run,
    };
    let (typed, ty, location) = prepared.type_parameter(parameter);
    match ty {
        Err(e) => (typed, Err(e)),
        Ok(ty) => {
            let (applied, out) = typed.solver.apply_at(
                scope,
                parameter.0@,
                FieldV { ty, location, op: RecordOp::Write },
            );
            match out {
                Err(e) => (typed.with_solver(applied), Err(e)),
                Ok(()) => (typed.with_solver(applied), Ok(ty)),
            }
        },
    }
}

/// Declaring the parameters of a function takes nothing away, given that walking the default
/// value of the first of them and declaring the others take nothing away.
pub proof fn lemma_bind_parameters_step(
    run: Run,
    parameters: Seq<Parameter>,
    scope: Var,
    done: Seq<TyV>,
    fuel: nat,
)
    requires
        done.len() < parameters.len() ==> {
            let parameter = parameters[done.len() as int];
            let next = declared_in(run, parameters, scope, done, fuel);
            &&& parameter.1 matches Some(default_value) ==> run.solver.grows_into(
                run.process_expression(default_value, fuel).solver,
            )
            &&& next.1 matches Ok(ty) ==> next.0.solver.grows_into(
                next.0.bind_parameters(parameters, scope, done.push(ty), fuel).0.solver,
            )
        },
    ensures
        run.solver.grows_into(run.bind_parameters(parameters, scope, done, fuel).0.solver),
{
    lemma_grows_reflexive(run.solver);
    if done.len() < parameters.len() {
        let parameter = parameters[done.len() as int];
        let prepared = match parameter.1 {
            Some(default_value) => run.process_expression(default_value, fuel),
            None => run,
        };
        lemma_type_parameter_grows(prepared, parameter);
        let (typed, ty, location) = prepared.type_parameter(parameter);
        lemma_grows_transitive(run.solver, prepared.solver, typed.solver);
        if let Ok(ty) = ty {
            let field = FieldV { ty, location, op: RecordOp::Write };
            lemma_apply_at_grows(typed.solver, scope, parameter.0@, field);
            let (applied, out) = typed.solver.apply_at(scope, parameter.0@, field);
            lemma_grows_transitive(run.solver, typed.solver, applied);
            if out is Ok {
                let next = typed.with_solver(applied);
                lemma_grows_transitive(
                    run.solver,
                    applied,
                    next.bind_parameters(parameters, scope, done.push(ty), fuel).0.solver,
                );
            }
        }
    }
}

/// The state in which the parameters of a function are declared.
pub open spec fn bound_in(
    run: Run,
    function: ExpressionBox,
    self_scope: Var,
    fuel: nat,
) -> Run {
    let (entered, scopes) = run.solver.enter_function(
        function.0->FunctionDeclaration_2 is Some,
        self_scope,
    );
    run.with_solver(entered).bind_parameters(
        function.0->FunctionDeclaration_1@,
        scopes.unwrap().own_local,
        Seq::empty(),
        fuel,
    ).0
}

/// The state in which a constructor has adopted the fields of its parent.
pub open spec fn inherited_in(
    run: Run,
    function: ExpressionBox,
    self_scope: Var,
    local_scope: Var,
    fuel: nat,
) -> Run {
    let (entered, scopes) = run.solver.enter_function(
        function.0->FunctionDeclaration_2 is Some,
        self_scope,
    );
    let bound = bound_in(run, function, self_scope, fuel);
    match function.0->FunctionDeclaration_2 {
        Some(Constructor(Some(call))) => bound.inherit(
            call,
            scopes.unwrap().own_self,
            self_scope,
            local_scope,
            fuel,
        ).0,
        _ => bound,
    }
}

/// Elaborating a function takes nothing away, given that declaring its parameters, adopting
/// the fields of its parent and walking its body take nothing away.
pub proof fn lemma_process_function_step(
    run: Run,
    function: ExpressionBox,
    self_scope: Var,
    local_scope: Var,
    fuel: nat,
)
    requires
        *function.0 is FunctionDeclaration && run.solver.enter_function(
            function.0->FunctionDeclaration_2 is Some,
            self_scope,
        ).1 is Some ==> {
            let entered = run.solver.enter_function(
                function.0->FunctionDeclaration_2 is Some,
                self_scope,
            ).0;
            let bound = bound_in(run, function, self_scope, fuel);
            let inherited = inherited_in(run, function, self_scope, local_scope, fuel);
            &&& entered.grows_into(bound.solver)
            &&& bound.solver.grows_into(inherited.solver)
            &&& inherited.solver.grows_into(
                inherited.process_body(function.0->FunctionDeclaration_3, fuel).solver,
            )
        },
    ensures
        run.solver.grows_into(
            run.process_function(function, self_scope, local_scope, fuel).0.solver,
        ),
{
    lemma_grows_reflexive(run.solver);
    match *function.0 {
        Expression::FunctionDeclaration(_, parameters, constructor, body, _) => {
            let start = run.solver;
            lemma_enter_function_grows(start, constructor is Some, self_scope);
            let (entered, scopes) = start.enter_function(constructor is Some, self_scope);
            if let Some(scopes) = scopes {
                let bound = bound_in(run, function, self_scope, fuel);
                let inherited = inherited_in(run, function, self_scope, local_scope, fuel);
                let walked = inherited.process_body(body, fuel);
                lemma_grows_transitive(start, entered, bound.solver);
                lemma_grows_transitive(start, bound.solver, inherited.solver);
                lemma_grows_transitive(start, inherited.solver, walked.solver);
                lemma_leave_function_grows(
                    walked.solver,
                    start.frame,
                    start.return_slot,
                    constructor is Some,
                    scopes.own_self,
                );
                lemma_grows_transitive(
                    start,
                    walked.solver,
                    walked.solver.leave_function(
                        start.frame,
                        start.return_slot,
                        constructor is Some,
                        scopes.own_self,
                    ).0,
                );
            }
        },
        _ => {},
    }
}

} // verus!
