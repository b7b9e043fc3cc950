//! What holds of records and of inference as a whole.

use vstd::prelude::*;
use crate::error::TypeErrorV;
use crate::laws::growth::{lemma_root_after_shortcut, lemma_root_is_terminal};
use crate::location::Location;
use crate::parse::expression::ExpressionBox;
use crate::parse::statement::StatementBox;
use crate::record::FieldOpV;
use crate::solver::{SolverV, empty_record, lemma_root_more_fuel};
use crate::ty::{FieldV, RecordOp, RecordV, State, TyV, Var};

verus! {

/// Inference is a function of the program and of how deep the solver goes: two solvers that
/// have seen nothing end in the same state, with the same errors in the same order, and
/// answer every query alike.
pub proof fn lemma_inference_is_deterministic(
    first: SolverV,
    second: SolverV,
    depth_limit: usize,
    stmts: Seq<StatementBox>,
    var: Var,
)
    requires
        first == SolverV::initial(depth_limit),
        second == SolverV::initial(depth_limit),
    ensures
        first.infer(stmts).errors == second.infer(stmts).errors,
        first.infer(stmts).solver == second.infer(stmts).solver,
        first.infer(stmts).solver.query_var(var) == second.infer(stmts).solver.query_var(var),
{
}

/// Applying a field to a record removes no field and leaves the state as it is.
pub proof fn lemma_apply_field_keeps_fields(
    record: RecordV,
    name: Seq<char>,
    field: FieldV,
    other: Seq<char>,
)
    ensures
        record.apply_field(name, field).0.state == record.state,
        record.contains(other) ==> record.apply_field(name, field).0.contains(other),
        record.apply_field(name, field).1 is Ok ==> record.apply_field(name, field).0.contains(name),
{
    let applied = record.apply_field(name, field).0;
    if record.contains(other) {
        let at = choose|i: int| 0 <= i < record.fields.len() && (#[trigger] record.fields[i]).0 == other;
        if record.contains(name) {
            crate::record::lemma_contains_has_first(record, name);
            assert(applied.fields[at].0 == other);
        } else if record.state.admits(field.op) {
            assert(applied.fields[at] == record.fields[at]);
        }
    }
    if record.apply_field(name, field).1 is Ok {
        if record.contains(name) {
            crate::record::lemma_contains_has_first(record, name);
            let i = record.index_of(name);
            assert(applied.fields[i].0 == name);
        } else {
            assert(applied.fields[record.fields.len() as int].0 == name);
        }
    }
}

/// Moving a record to a state never re-opens it: the state afterwards is at least as
/// restrictive as the state before and as the state asked for.
pub proof fn lemma_state_never_reopens(before: State, asked: State)
    ensures
        before.join(asked).rank() >= before.rank(),
        before.join(asked).rank() >= asked.rank(),
        before == State::Concrete ==> before.join(asked) == State::Concrete,
{
}

/// A field that a closed record lacks cannot be applied to it, whether it is read or written:
/// the record stays as it is and the outcome is an illegal extension.
pub proof fn lemma_concrete_record_refuses_new_fields(
    record: RecordV,
    name: Seq<char>,
    field: FieldV,
)
    requires
        record.state == State::Concrete,
        !record.contains(name),
    ensures
        record.apply_field(name, field) == (
            record,
            Err::<FieldOpV, TypeErrorV>(
                TypeErrorV::IllegalExtension {
                    name,
                    state: State::Concrete,
                    location: field.location,
                },
            ),
        ),
{
}

/// Unifying a closed record with the record that a read of a field it lacks stands for fails
/// with an illegal extension, in either order, and leaves the solver as it is.
pub proof fn lemma_read_before_declare_is_illegal(
    s: SolverV,
    record: RecordV,
    name: Seq<char>,
    read: FieldV,
    location: Location,
    fuel: nat,
)
    requires
        record.state == State::Concrete,
        !record.contains(name),
        read.op == RecordOp::Read,
        fuel >= 1,
    ensures
        s.unify(TyV::Record(record), TyV::Record(empty_record().with_field(name, read)), location, fuel)
            == (
            s,
            Err::<TyV, TypeErrorV>(
                TypeErrorV::IllegalExtension {
                    name,
                    state: State::Concrete,
                    location: read.location,
                },
            ),
        ),
        s.unify(TyV::Record(empty_record().with_field(name, read)), TyV::Record(record), location, fuel)
            == (
            s,
            Err::<TyV, TypeErrorV>(
                TypeErrorV::IllegalExtension { name, state: State::Concrete, location },
            ),
        ),
{
    let asked = empty_record().with_field(name, read);
    let a = TyV::Record(record);
    let b = TyV::Record(asked);
    assert(asked.fields[0] == (name, read));
    // The closed record first: every field of it may enter the other record, which is open,
    // and the field that is read is refused when it is applied.
    assert(record.refusal_from(asked, 0) is None) by {
        lemma_no_refusal_by_inferred(record, asked, 0);
    }
    assert(s.merge_fields(record, asked.fields, 0, location, (fuel - 1) as nat).1 is Err) by {
        reveal_with_fuel(SolverV::merge_fields, 2);
    }
    assert(s.unify_terms(a, b, location, fuel) == (
        s,
        Err::<Option<TyV>, TypeErrorV>(
            TypeErrorV::IllegalExtension {
                name,
                state: State::Concrete,
                location: read.location,
            },
        ),
    )) by {
        reveal_with_fuel(SolverV::merge_fields, 2);
    }
    // The record of the read first: its one field cannot enter the closed record.
    assert(asked.refusal_from(record, 0) == Some(0int));
    assert(s.unify_terms(b, a, location, fuel) == (
        s,
        Err::<Option<TyV>, TypeErrorV>(
            TypeErrorV::IllegalExtension { name, state: State::Concrete, location },
        ),
    ));
}

/// Read-before-declare behind an expression: where an expression stands for a closed record,
/// constraining it to a record that reads a field the closed record lacks fails with an
/// illegal extension, and the expression stands for the same closed record afterwards.
pub proof fn lemma_read_through_expression_is_illegal(
    s: SolverV,
    expr: ExpressionBox,
    record: RecordV,
    name: Seq<char>,
    read: FieldV,
)
    requires
        s.held(s.var_for(expr)) == Some(record),
        record.state == State::Concrete,
        !record.contains(name),
        read.op == RecordOp::Read,
        s.depth_limit >= 1,
    ensures
        s.expr_eq_ty(expr, TyV::Record(empty_record().with_field(name, read))).1 == Err::<
            (),
            TypeErrorV,
        >(TypeErrorV::IllegalExtension { name, state: State::Concrete, location: read.location }),
        ({
            let after = s.expr_eq_ty(expr, TyV::Record(empty_record().with_field(name, read))).0;
            after.held(after.var_for(expr)) == Some(record)
        }),
{
    let var = s.var_for(expr);
    let fuel = s.chain_fuel();
    let root = s.root_of(var).unwrap();
    let asked = TyV::Record(empty_record().with_field(name, read));
    let after = if root != var {
        s.bind(var, TyV::Var(root))
    } else {
        s
    };
    lemma_root_is_terminal(s, var, fuel);
    assert(s.root(root, fuel) == Some(root));
    if root != var {
        lemma_root_after_shortcut(s, var, root, root, fuel);
        lemma_root_after_shortcut(s, var, root, var, fuel);
        lemma_root_more_fuel(after, root, fuel, after.chain_fuel());
        lemma_root_more_fuel(after, var, fuel, after.chain_fuel());
    }
    assert(after.root_of(root) == Some(root));
    assert(after.root_of(var) == Some(root));
    assert(after.subs[root] == TyV::Record(record));
    assert(s.canonize(expr) == (after, Ok::<TyV, TypeErrorV>(TyV::Var(root))));
    lemma_read_before_declare_is_illegal(
        after,
        record,
        name,
        read,
        expr.1,
        s.depth_limit as nat,
    );
    let refused = TypeErrorV::IllegalExtension {
        name,
        state: State::Concrete,
        location: read.location,
    };
    assert(after.unify_terms(TyV::Record(record), asked, expr.1, s.depth_limit as nat) == (
        after,
        Err::<Option<TyV>, TypeErrorV>(refused),
    ));
    assert(after.unify(TyV::Var(root), asked, expr.1, after.depth_limit as nat) == (
        after,
        Err::<TyV, TypeErrorV>(refused),
    ));
}

/// A record that was inferred from context refuses no field of another record.
proof fn lemma_no_refusal_by_inferred(record: RecordV, other: RecordV, i: nat)
    requires
        other.state == State::Inferred,
    ensures
        record.refusal_from(other, i) is None,
    decreases record.fields.len() - i,
{
    if i < record.fields.len() {
        lemma_no_refusal_by_inferred(record, other, i + 1);
    }
}

} // verus!
