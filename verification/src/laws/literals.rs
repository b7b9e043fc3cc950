//! What inference makes of a variable that is declared with a literal.

use vstd::prelude::*;
use crate::constrain::literal_type;
use crate::error::TypeErrorV;
use crate::goals::model::{Run, Walk, declarations_of, first_visited};
use crate::parse::expression::{Expression, ExpressionBox, Literal};
use crate::parse::statement::StatementBox;
use crate::solver::{Head, SolverV, empty_record};
use crate::ty::{FieldV, RecordOp, TyV, Var};

verus! {

/// Whether a literal is of a kind without parts: a truth value, `undefined`, `noone`, a text or
/// a number.
pub open spec fn is_plain(literal: Literal) -> bool {
    literal_type(literal) matches Some(ty) && ty.is_basic()
}

/// Whether a statement declares the one local variable `name` with the value `value`.
pub open spec fn declares(stmt: StatementBox, name: Seq<char>, value: ExpressionBox) -> bool {
    &&& *stmt.0 is LocalVariableSeries
    &&& declarations_of(stmt).len() == 1
    &&& declarations_of(stmt)[0].0@ == name
    &&& declarations_of(stmt)[0].1 == Some(value)
}

/// Walking a plain literal binds the variable of its expression to the type of the literal.
pub proof fn lemma_literal_is_bound(s: SolverV, value: ExpressionBox, literal: Literal, fuel: nat)
    requires
        *value.0 == Expression::Literal(literal),
        is_plain(literal),
        fuel >= 1,
        s.depth_limit >= 1,
        s.chain_limit >= 1,
        !s.subs.contains_key(s.var_for(value)),
    ensures
        s.constrain_expr(value, fuel) == (
            s.rebind(s.var_for(value), literal_type(literal).unwrap()),
            Ok::<(), TypeErrorV>(()),
        ),
{
    let var = s.var_for(value);
    let ty = literal_type(literal).unwrap();
    assert(s.root(var, s.chain_fuel()) == Some(var));
    assert(s.canonize(value) == (s, Ok::<TyV, TypeErrorV>(TyV::Var(var))));
    assert(s.head(TyV::Var(var)) == Some(Head { root: Some(var), term: None }));
    assert(s.head(ty) == Some(Head { root: None, term: Some(ty) }));
    assert(!s.occurs(var, ty, s.depth_limit as nat));
    assert(s.unify(TyV::Var(var), ty, value.1, s.depth_limit as nat) == (
        s.rebind(var, ty),
        Ok::<TyV, TypeErrorV>(TyV::Var(var)),
    ));
    assert(s.type_literal(value, literal) == (s, Ok::<TyV, TypeErrorV>(ty)));
    assert(s.constrain_literal(value, literal) == (s.rebind(var, ty), Ok::<(), TypeErrorV>(())));
}

/// Walking a plain literal notes no error, keeps no function, and binds the variable of its
/// expression to the type of the literal.
pub proof fn lemma_literal_is_walked(w: Walk, value: ExpressionBox, literal: Literal, fuel: nat)
    requires
        *value.0 == Expression::Literal(literal),
        is_plain(literal),
        fuel >= 1,
        w.solver.depth_limit >= 1,
        w.solver.chain_limit >= 1,
        !w.solver.subs.contains_key(w.solver.var_for(value)),
    ensures
        w.visit_expr(value, fuel) == (
            w.with_solver(w.solver.rebind(w.solver.var_for(value), literal_type(literal).unwrap())),
            Ok::<(), TypeErrorV>(()),
        ),
{
    assert(value.0.child_expressions() =~= Seq::empty());
    assert(w.visit_children(value, first_visited(value), fuel) == w);
    lemma_literal_is_bound(w.solver, value, literal, fuel);
}

/// A variable that is bound to a basic kind resolves to that kind.
pub proof fn lemma_bound_literal_resolves(s: SolverV, value: ExpressionBox, ty: TyV)
    requires
        ty.is_basic(),
        s.chain_limit >= 1,
        s.subs.contains_key(s.var_for(value)),
        s.subs[s.var_for(value)] == ty,
    ensures
        s.canonize(value) == (s, Ok::<TyV, TypeErrorV>(ty)),
{
    let var = s.var_for(value);
    assert(s.root(var, s.chain_fuel()) == Some(var));
}

/// Applying a field to a scope that is bound to an empty record binds the scope to the record
/// of that one field.
pub proof fn lemma_first_field_is_declared(s: SolverV, scope: Var, name: Seq<char>, field: FieldV)
    requires
        s.chain_limit >= 1,
        s.subs.contains_key(scope),
        s.subs[scope] == TyV::Record(empty_record()),
    ensures
        s.apply_at(scope, name, field) == (
            s.rebind(scope, TyV::Record(empty_record().with_field(name, field))),
            Ok::<(), TypeErrorV>(()),
        ),
{
    assert(s.root(scope, s.chain_fuel()) == Some(scope));
    assert(s.head(TyV::Var(scope)) == Some(
        Head { root: Some(scope), term: Some(TyV::Record(empty_record())) },
    ));
    assert(!empty_record().contains(name));
}

/// The field of a record of one field is found under its name, and resolves to its type where
/// that is a basic kind.
pub proof fn lemma_only_field_is_found(s: SolverV, scope: Var, name: Seq<char>, field: FieldV)
    requires
        s.chain_limit >= 1,
        s.depth_limit >= 1,
        field.ty.is_basic(),
        s.subs.contains_key(scope),
        s.subs[scope] == TyV::Record(empty_record().with_field(name, field)),
    ensures
        s.query_field(scope, name) == Some(field.ty),
{
    let declared = empty_record().with_field(name, field);
    assert(s.root(scope, s.chain_fuel()) == Some(scope));
    assert(declared.fields[0] == (name, field));
    assert(declared.contains(name));
    crate::record::lemma_first_at_unique(declared, name, 0);
    assert(s.resolve(field.ty, s.depth_limit as nat) == Some(field.ty));
}

/// Walking the declaration of one local variable with a plain literal, in a state in which
/// the variable of the literal is unbound and the local scope is bound to an empty record,
/// binds the variable of the literal to the type of the literal and the local scope to the
/// record of the one variable.
pub proof fn lemma_declaration_is_walked(
    w: Walk,
    stmt: StatementBox,
    name: Seq<char>,
    value: ExpressionBox,
    literal: Literal,
    fuel: nat,
)
    requires
        fuel >= 1,
        declares(stmt, name, value),
        *value.0 == Expression::Literal(literal),
        is_plain(literal),
        w.solver.depth_limit >= 1,
        w.solver.chain_limit >= 1,
        !w.solver.subs.contains_key(w.solver.var_for(value)),
        w.solver.var_for(value) != w.solver.local_var(),
        w.solver.subs.contains_key(w.solver.local_var()),
        w.solver.subs[w.solver.local_var()] == TyV::Record(empty_record()),
    ensures
        w.visit_stmt(stmt, fuel) == (
            w.with_solver(
                w.solver.rebind(w.solver.var_for(value), literal_type(literal).unwrap()).rebind(
                    w.solver.local_var(),
                    TyV::Record(
                        empty_record().with_field(
                            name,
                            FieldV {
                                ty: literal_type(literal).unwrap(),
                                location: stmt.1,
                                op: RecordOp::Write,
                            },
                        ),
                    ),
                ),
            ),
            Ok::<(), TypeErrorV>(()),
        ),
{
    let ty = literal_type(literal).unwrap();
    let s0 = w.solver;
    let var = s0.var_for(value);
    let local = s0.local_var();
    lemma_literal_is_walked(w, value, literal, fuel);
    let s1 = s0.rebind(var, ty);
    let w1 = w.with_solver(s1);
    lemma_bound_literal_resolves(s1, value, ty);
    let field = FieldV { ty, location: stmt.1, op: RecordOp::Write };
    lemma_first_field_is_declared(s1, local, name, field);
    let s2 = s1.rebind(local, TyV::Record(empty_record().with_field(name, field)));
    let w2 = w1.with_solver(s2);
    assert(w1.declare(name, Ok(ty), stmt.1) == (w2, Ok::<(), TypeErrorV>(())));
    assert(w2.declare_from(stmt, 1, fuel) == (w2, Ok::<(), TypeErrorV>(())));
    assert(w.declare_from(stmt, 0, fuel) == (w2, Ok::<(), TypeErrorV>(())));
}

/// Round trip on literals: in a solver that has seen nothing, the type inferred for a
/// variable that is declared with a plain literal is the type of the literal, and no error
/// is met.
pub proof fn lemma_literal_round_trip(
    depth_limit: usize,
    stmt: StatementBox,
    name: Seq<char>,
    value: ExpressionBox,
    literal: Literal,
)
    requires
        depth_limit >= 1,
        declares(stmt, name, value),
        *value.0 == Expression::Literal(literal),
        is_plain(literal),
    ensures
        SolverV::initial(depth_limit).infer(seq![stmt]).errors.len() == 0,
        ({
            let after = SolverV::initial(depth_limit).infer(seq![stmt]).solver;
            after.query_field(after.local_var(), name) == Some(literal_type(literal).unwrap())
        }),
{
    let fuel = depth_limit as nat;
    let s0 = SolverV::initial(depth_limit);
    let ty = literal_type(literal).unwrap();
    let local = Var::Fresh(1);
    let w0 = (Run { solver: s0, errors: Seq::empty() }).walk();
    assert(s0.local_var() == local);
    lemma_declaration_is_walked(w0, stmt, name, value, literal, fuel);
    let field = FieldV { ty, location: stmt.1, op: RecordOp::Write };
    let s2 = s0.rebind(s0.var_for(value), ty).rebind(
        local,
        TyV::Record(empty_record().with_field(name, field)),
    );
    let w2 = w0.with_solver(s2);
    assert(w2.visit_statements(seq![stmt], 1, fuel) == w2);
    assert(w0.visit_statements(seq![stmt], 0, fuel) == w2);
    assert(w2.functions =~= Seq::empty());
    assert(w2.run().process_functions(w2.functions, 0, fuel) == w2.run());
    assert(s0.infer(seq![stmt]) == w2.run());
    assert(s2.local_var() == local);
    lemma_only_field_is_found(s2, local, name, field);
}

} // verus!
