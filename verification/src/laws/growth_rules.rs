//! Records only grow under the rules that constrain single expressions.

use vstd::prelude::*;
use crate::laws::growth::{
    lemma_grows_reflexive, lemma_grows_transitive, lemma_rebind_grows, lemma_shortcut_grows,
    lemma_unify_grows,
};
use crate::location::Location;
use crate::parse::expression::{Expression, ExpressionBox, Literal, Scope};
use crate::record::FieldOpV;
use crate::solver::{SolverV, empty_record};
use crate::ty::{FieldV, RecordOp, RecordV, State, TyV, Var};

verus! {

/// Applying a field to a record leaves the record within what comes of it.
pub proof fn lemma_apply_field_within(record: RecordV, name: Seq<char>, field: FieldV)
    ensures
        record.within(record.apply_field(name, field).0),
{
    assert forall|other: Seq<char>| #[trigger] record.contains(other) implies record.apply_field(
        name,
        field,
    ).0.contains(other) by {
        crate::laws::records::lemma_apply_field_keeps_fields(record, name, field, other);
    }
    crate::laws::records::lemma_apply_field_keeps_fields(record, name, field, name);
}

/// Unifying two terms as deep as the solver goes takes nothing away.
pub proof fn lemma_unify_tys_grows(s: SolverV, a: TyV, b: TyV, location: Location)
    ensures
        s.grows_into(s.unify_tys(a, b, location).0),
{
    lemma_grows_reflexive(s);
    lemma_unify_grows(s, a, b, location, s.depth_limit as nat);
}

/// Committing what the application of a field asks takes nothing away.
pub proof fn lemma_commit_grows(s: SolverV, op: FieldOpV)
    ensures
        s.grows_into(s.commit(op).0),
{
    lemma_grows_reflexive(s);
    match op {
        FieldOpV::NewValue => {},
        FieldOpV::Unification { previous, new, location } => {
            lemma_unify_tys_grows(s, previous, new, location);
        },
    }
}

/// Applying a field to a record and storing the record takes nothing away.
pub proof fn lemma_apply_to_grows(s: SolverV, root: Var, record: RecordV, name: Seq<char>, field: FieldV)
    ensures
        s.grows_into(s.apply_to(root, record, name, field).0),
{
    lemma_grows_reflexive(s);
    let (applied, op) = record.apply_field(name, field);
    if let Ok(op) = op {
        let stored = s.rebind(root, TyV::Record(applied));
        lemma_rebind_grows(s, root, TyV::Record(applied));
        lemma_commit_grows(stored, op);
        lemma_grows_transitive(s, stored, stored.commit(op).0);
    }
}

/// Applying a field to the record that a scope stands for takes nothing away.
pub proof fn lemma_apply_at_grows(s: SolverV, scope: Var, name: Seq<char>, field: FieldV)
    ensures
        s.grows_into(s.apply_at(scope, name, field).0),
{
    lemma_grows_reflexive(s);
    match s.head(TyV::Var(scope)) {
        None => {},
        Some(h) => match h.term {
            Some(TyV::Record(record)) => {
                lemma_apply_to_grows(s, h.root.unwrap(), record, name, field);
            },
            None => {
                lemma_apply_to_grows(s, h.root.unwrap(), empty_record(), name, field);
            },
            Some(_) => {},
        },
    }
}

/// Applying a field to the global scope takes nothing away.
pub proof fn lemma_apply_global_grows(s: SolverV, name: Seq<char>, field: FieldV)
    ensures
        s.grows_into(s.apply_global(name, field).0),
{
    lemma_grows_reflexive(s);
    reveal(SolverV::grows_into);
    let (applied, op) = s.globals.apply_field(name, field);
    lemma_apply_field_within(s.globals, name, field);
    if let Ok(op) = op {
        let stored = s.with_globals(applied);
        assert(s.grows_into(stored)) by {
            assert forall|var: Var| #[trigger] s.keeps(stored, var) by {
                lemma_root_same_table(s, stored, var, s.chain_fuel());
                assert(s.held(var) == stored.held(var));
            }
        }
        lemma_commit_grows(stored, op);
        lemma_grows_transitive(s, stored, stored.commit(op).0);
    }
}

/// Closing a record takes nothing away.
pub proof fn lemma_seal_grows(s: SolverV, var: Var)
    ensures
        s.grows_into(s.seal(var)),
{
    lemma_grows_reflexive(s);
    match s.head(TyV::Var(var)) {
        Some(h) => match h.term {
            Some(TyV::Record(record)) => {
                lemma_rebind_grows(
                    s,
                    h.root.unwrap(),
                    TyV::Record(RecordV { fields: record.fields, state: State::Concrete }),
                );
            },
            _ => {},
        },
        None => {},
    }
}

/// Chains depend on the bindings alone.
pub proof fn lemma_root_same_table(s: SolverV, other: SolverV, var: Var, fuel: nat)
    requires
        s.subs == other.subs,
    ensures
        s.root(var, fuel) == other.root(var, fuel),
    decreases fuel,
{
    if fuel > 0 && s.subs.contains_key(var) && s.subs[var] is Var {
        lemma_root_same_table(s, other, s.subs[var]->Var_0, (fuel - 1) as nat);
    }
}

/// A state grows into every state that binds the same variables to the same terms and has
/// the same global scope.
pub proof fn lemma_same_table_grows(s: SolverV, other: SolverV)
    requires
        s.subs == other.subs,
        s.chain_limit == other.chain_limit,
        s.globals == other.globals,
    ensures
        s.grows_into(other),
{
    reveal(SolverV::grows_into);
    assert forall|var: Var| #[trigger] s.keeps(other, var) by {
        lemma_root_same_table(s, other, var, s.chain_fuel());
        assert(s.held(var) == other.held(var));
    }
}

/// Opening a scope takes nothing away.
pub proof fn lemma_new_scope_grows(s: SolverV)
    ensures
        s.grows_into(s.with_new_scope()),
{
    lemma_grows_reflexive(s);
    lemma_same_table_grows(s, s.minted());
    lemma_rebind_grows(s.minted(), Var::Fresh(s.next_var), TyV::Record(empty_record()));
    lemma_grows_transitive(s, s.minted(), s.with_new_scope());
}

/// Resolving a variable takes nothing away.
pub proof fn lemma_canonize_var_grows(s: SolverV, var: Var, location: Location)
    ensures
        s.grows_into(s.canonize_var(var, location).0),
{
    lemma_grows_reflexive(s);
    match s.root_of(var) {
        None => {},
        Some(root) => {
            if root != var {
                lemma_shortcut_grows(s, var, root);
            }
        },
    }
}

/// Resolving an expression takes nothing away.
pub proof fn lemma_canonize_grows(s: SolverV, expr: ExpressionBox)
    ensures
        s.grows_into(s.canonize(expr).0),
{
    lemma_grows_reflexive(s);
    lemma_canonize_var_grows(s, s.var_for(expr), expr.1);
}

/// Constraining an expression to a type takes nothing away.
pub proof fn lemma_expr_eq_ty_grows(s: SolverV, expr: ExpressionBox, ty: TyV)
    ensures
        s.grows_into(s.expr_eq_ty(expr, ty).0),
{
    lemma_grows_reflexive(s);
    lemma_canonize_grows(s, expr);
    let (after, own) = s.canonize(expr);
    if let Ok(own) = own {
        lemma_unify_tys_grows(after, own, ty, expr.1);
        lemma_grows_transitive(s, after, after.unify_tys(own, ty, expr.1).0);
    }
}

/// Constraining an expression to the type of another takes nothing away.
pub proof fn lemma_expr_eq_expr_grows(s: SolverV, target: ExpressionBox, expr: ExpressionBox)
    ensures
        s.grows_into(s.expr_eq_expr(target, expr).0),
{
    lemma_grows_reflexive(s);
    lemma_canonize_grows(s, expr);
    let (after, ty) = s.canonize(expr);
    if let Ok(ty) = ty {
        lemma_expr_eq_ty_grows(after, target, ty);
        lemma_grows_transitive(s, after, after.expr_eq_ty(target, ty).0);
    }
}

/// Constraining what a function returns takes nothing away.
pub proof fn lemma_constrain_return_grows(s: SolverV, ty: TyV, location: Location)
    ensures
        s.grows_into(s.constrain_return(ty, location).0),
{
    lemma_grows_reflexive(s);
    match s.return_slot {
        Some(previous) => {
            lemma_unify_tys_grows(s, previous, ty, location);
        },
        None => {
            lemma_same_table_grows(s, s.with_return_slot(Some(ty)));
        },
    }
}

/// Constraining an object to hold a field takes nothing away.
pub proof fn lemma_constrain_field_grows(s: SolverV, object: ExpressionBox, name: Seq<char>, field: FieldV)
    ensures
        s.grows_into(s.constrain_field(object, name, field).0),
{
    lemma_grows_reflexive(s);
    lemma_expr_eq_ty_grows(s, object, TyV::Record(empty_record().with_field(name, field)));
}

/// Constraining an object to hold a member that is read takes nothing away.
pub proof fn lemma_constrain_member_grows(
    s: SolverV,
    expr: ExpressionBox,
    object: ExpressionBox,
    name: Seq<char>,
)
    ensures
        s.grows_into(s.constrain_member(expr, object, name).0),
{
    lemma_grows_reflexive(s);
    lemma_canonize_grows(s, expr);
    let (after, ty) = s.canonize(expr);
    if let Ok(ty) = ty {
        let field = FieldV { ty, location: expr.1, op: RecordOp::Read };
        lemma_constrain_field_grows(after, object, name, field);
        lemma_grows_transitive(s, after, after.constrain_field(object, name, field).0);
    }
}

/// The rule of an operator with one operand takes nothing away.
pub proof fn lemma_constrain_operand_grows(s: SolverV, expr: ExpressionBox, operand: ExpressionBox, kind: TyV)
    ensures
        s.grows_into(s.constrain_operand(expr, operand, kind).0),
{
    lemma_grows_reflexive(s);
    lemma_expr_eq_ty_grows(s, operand, kind);
    let (first, one) = s.expr_eq_ty(operand, kind);
    if one is Ok {
        lemma_expr_eq_ty_grows(first, expr, kind);
        lemma_grows_transitive(s, first, first.expr_eq_ty(expr, kind).0);
    }
}

/// The rule of a logical operator takes nothing away.
pub proof fn lemma_constrain_logical_grows(
    s: SolverV,
    expr: ExpressionBox,
    left: ExpressionBox,
    right: ExpressionBox,
)
    ensures
        s.grows_into(s.constrain_logical(expr, left, right).0),
{
    lemma_grows_reflexive(s);
    lemma_expr_eq_ty_grows(s, left, TyV::Bool);
    let (first, one) = s.expr_eq_ty(left, TyV::Bool);
    if one is Ok {
        lemma_constrain_operand_grows(first, expr, right, TyV::Bool);
        lemma_grows_transitive(s, first, first.constrain_operand(expr, right, TyV::Bool).0);
    }
}

/// The rule of a comparison takes nothing away.
pub proof fn lemma_constrain_equality_grows(
    s: SolverV,
    expr: ExpressionBox,
    left: ExpressionBox,
    right: ExpressionBox,
)
    ensures
        s.grows_into(s.constrain_equality(expr, left, right).0),
{
    lemma_grows_reflexive(s);
    lemma_expr_eq_expr_grows(s, right, left);
    let (first, one) = s.expr_eq_expr(right, left);
    if one is Ok {
        lemma_expr_eq_ty_grows(first, expr, TyV::Bool);
        lemma_grows_transitive(s, first, first.expr_eq_ty(expr, TyV::Bool).0);
    }
}

/// The rule of an operator that computes takes nothing away.
pub proof fn lemma_constrain_evaluation_grows(
    s: SolverV,
    expr: ExpressionBox,
    left: ExpressionBox,
    right: ExpressionBox,
)
    ensures
        s.grows_into(s.constrain_evaluation(expr, left, right).0),
{
    lemma_grows_reflexive(s);
    lemma_expr_eq_expr_grows(s, right, left);
    let (first, one) = s.expr_eq_expr(right, left);
    if one is Ok {
        lemma_expr_eq_expr_grows(first, expr, left);
        lemma_grows_transitive(s, first, first.expr_eq_expr(expr, left).0);
    }
}

/// The rule of a ternary takes nothing away.
pub proof fn lemma_constrain_ternary_grows(
    s: SolverV,
    expr: ExpressionBox,
    condition: ExpressionBox,
    true_value: ExpressionBox,
    false_value: ExpressionBox,
)
    ensures
        s.grows_into(s.constrain_ternary(expr, condition, true_value, false_value).0),
{
    lemma_grows_reflexive(s);
    lemma_expr_eq_ty_grows(s, condition, TyV::Bool);
    let (first, one) = s.expr_eq_ty(condition, TyV::Bool);
    if one is Ok {
        lemma_expr_eq_expr_grows(first, false_value, true_value);
        let (second, two) = first.expr_eq_expr(false_value, true_value);
        lemma_grows_transitive(s, first, second);
        if two is Ok {
            lemma_expr_eq_expr_grows(second, expr, true_value);
            lemma_grows_transitive(s, second, second.expr_eq_expr(expr, true_value).0);
        }
    }
}

/// The rule of a bare name takes nothing away.
pub proof fn lemma_constrain_identifier_grows(s: SolverV, expr: ExpressionBox, name: Seq<char>)
    ensures
        s.grows_into(s.constrain_identifier(expr, name).0),
{
    lemma_grows_reflexive(s);
    lemma_canonize_grows(s, expr);
    let (first, ty) = s.canonize(expr);
    if let Ok(ty) = ty {
        let field = FieldV { ty, location: expr.1, op: RecordOp::Read };
        lemma_apply_at_grows(first, first.scope_of(name), name, field);
        lemma_grows_transitive(s, first, first.apply_at(first.scope_of(name), name, field).0);
    }
}

/// The rule of an access takes nothing away.
pub proof fn lemma_constrain_access_grows(s: SolverV, expr: ExpressionBox, scope: Scope, member: ExpressionBox)
    ensures
        s.grows_into(s.constrain_access(expr, scope, member).0),
{
    lemma_grows_reflexive(s);
    match scope {
        Scope::Global => match *member.0 {
            Expression::Identifier(name) => {
                lemma_canonize_grows(s, expr);
                let (after, ty) = s.canonize(expr);
                if let Ok(ty) = ty {
                    let field = FieldV { ty, location: expr.1, op: RecordOp::Read };
                    lemma_apply_global_grows(after, name@, field);
                    lemma_grows_transitive(s, after, after.apply_global(name@, field).0);
                }
            },
            _ => {},
        },
        Scope::Current => match *member.0 {
            Expression::Identifier(name) => {
                lemma_canonize_grows(s, expr);
                let (after, ty) = s.canonize(expr);
                if let Ok(ty) = ty {
                    let field = FieldV { ty, location: expr.1, op: RecordOp::Read };
                    lemma_apply_at_grows(after, after.self_var(), name@, field);
                    lemma_grows_transitive(
                        s,
                        after,
                        after.apply_at(after.self_var(), name@, field).0,
                    );
                }
            },
            _ => {},
        },
        Scope::Dot(object) => match *member.0 {
            Expression::Identifier(name) => {
                lemma_constrain_member_grows(s, expr, object, name@);
            },
            _ => {},
        },
        Scope::Struct(key) => match *key.0 {
            Expression::Literal(Literal::String(name)) => {
                lemma_constrain_member_grows(s, expr, member, name@);
            },
            _ => {},
        },
        Scope::Array(index_one, index_two, _) => {
            lemma_canonize_grows(s, expr);
            let (after, ty) = s.canonize(expr);
            if let Ok(ty) = ty {
                lemma_expr_eq_ty_grows(after, index_one, TyV::Real);
                let (first, one) = after.expr_eq_ty(index_one, TyV::Real);
                lemma_grows_transitive(s, after, first);
                if one is Ok {
                    let (second, two) = match index_two {
                        Some(index_two) => first.expr_eq_ty(index_two, TyV::Real),
                        None => (first, Ok(())),
                    };
                    lemma_grows_reflexive(first);
                    if let Some(index_two) = index_two {
                        lemma_expr_eq_ty_grows(first, index_two, TyV::Real);
                    }
                    lemma_grows_transitive(s, first, second);
                    if two is Ok {
                        lemma_expr_eq_ty_grows(second, member, TyV::Array(Box::new(ty)));
                        lemma_grows_transitive(
                            s,
                            second,
                            second.expr_eq_ty(member, TyV::Array(Box::new(ty))).0,
                        );
                    }
                }
            }
        },
        Scope::DsMap(_) => {},
        Scope::Grid(_, _) => {},
        Scope::List(_) => {},
    }
}

/// Unifying the members of an array literal takes nothing away.
pub proof fn lemma_unify_members_grows(s: SolverV, first: TyV, members: Seq<ExpressionBox>, i: nat)
    ensures
        s.grows_into(s.unify_members(first, members, i).0),
    decreases members.len() - i,
{
    lemma_grows_reflexive(s);
    if i < members.len() {
        lemma_canonize_grows(s, members[i as int]);
        let (after, other) = s.canonize(members[i as int]);
        if let Ok(other) = other {
            lemma_unify_tys_grows(after, first, other, members[i as int].1);
            let (unified, out) = after.unify_tys(first, other, members[i as int].1);
            lemma_grows_transitive(s, after, unified);
            if out is Ok {
                lemma_unify_members_grows(unified, first, members, i + 1);
                lemma_grows_transitive(s, unified, unified.unify_members(first, members, i + 1).0);
            }
        }
    }
}

/// Building the record of a struct literal takes nothing away.
pub proof fn lemma_build_struct_grows(
    s: SolverV,
    record: RecordV,
    members: Seq<(String, ExpressionBox)>,
    i: nat,
    location: Location,
)
    ensures
        s.grows_into(s.build_struct(record, members, i, location).0),
    decreases members.len() - i,
{
    lemma_grows_reflexive(s);
    if i < members.len() {
        lemma_canonize_grows(s, members[i as int].1);
        let (after, ty) = s.canonize(members[i as int].1);
        if let Ok(ty) = ty {
            let (applied, op) = record.apply_field(
                members[i as int].0@,
                FieldV { ty, location, op: RecordOp::Write },
            );
            if let Ok(op) = op {
                lemma_commit_grows(after, op);
                let (committed, out) = after.commit(op);
                lemma_grows_transitive(s, after, committed);
                if out is Ok {
                    lemma_build_struct_grows(committed, applied, members, i + 1, location);
                    lemma_grows_transitive(
                        s,
                        committed,
                        committed.build_struct(applied, members, i + 1, location).0,
                    );
                }
            }
        }
    }
}

/// The rule of a literal takes nothing away.
pub proof fn lemma_constrain_literal_grows(s: SolverV, expr: ExpressionBox, literal: Literal)
    ensures
        s.grows_into(s.constrain_literal(expr, literal).0),
{
    lemma_grows_reflexive(s);
    let (after, ty) = s.type_literal(expr, literal);
    assert(s.grows_into(after)) by {
        match literal {
            Literal::Array(members) => {
                if members@.len() > 0 {
                    lemma_canonize_grows(s, members@[0]);
                    let (resolved, first) = s.canonize(members@[0]);
                    if let Ok(first) = first {
                        lemma_unify_members_grows(resolved, first, members@, 1);
                        lemma_grows_transitive(
                            s,
                            resolved,
                            resolved.unify_members(first, members@, 1).0,
                        );
                    }
                }
            },
            Literal::Struct(members) => {
                lemma_build_struct_grows(s, crate::constrain::open_record(), members@, 0, expr.1);
            },
            _ => {},
        }
    }
    if let Ok(ty) = ty {
        lemma_expr_eq_ty_grows(after, expr, ty);
        lemma_grows_transitive(s, after, after.expr_eq_ty(expr, ty).0);
    }
}

/// Resolving the expressions of a list takes nothing away.
pub proof fn lemma_canonize_all_grows(s: SolverV, exprs: Seq<ExpressionBox>, done: Seq<TyV>)
    ensures
        s.grows_into(s.canonize_all(exprs, done).0),
    decreases exprs.len() - done.len(),
{
    lemma_grows_reflexive(s);
    if done.len() < exprs.len() {
        lemma_canonize_grows(s, exprs[done.len() as int]);
        let (after, ty) = s.canonize(exprs[done.len() as int]);
        if let Ok(ty) = ty {
            lemma_canonize_all_grows(after, exprs, done.push(ty));
            lemma_grows_transitive(s, after, after.canonize_all(exprs, done.push(ty)).0);
        }
    }
}

/// Adopting the fields of a record takes nothing away.
pub proof fn lemma_adopt_fields_grows(s: SolverV, scope: Var, fields: Seq<(Seq<char>, FieldV)>, i: nat)
    ensures
        s.grows_into(s.adopt_fields(scope, fields, i).0),
    decreases fields.len() - i,
{
    lemma_grows_reflexive(s);
    if i < fields.len() {
        let (name, field) = fields[i as int];
        let written = FieldV { ty: field.ty, location: field.location, op: RecordOp::Write };
        lemma_apply_at_grows(s, scope, name, written);
        let (after, out) = s.apply_at(scope, name, written);
        if out is Ok {
            lemma_adopt_fields_grows(after, scope, fields, i + 1);
            lemma_grows_transitive(s, after, after.adopt_fields(scope, fields, i + 1).0);
        }
    }
}

/// Entering the scopes of a function takes nothing away.
pub proof fn lemma_enter_function_grows(s: SolverV, is_constructor: bool, self_scope: Var)
    ensures
        s.grows_into(s.enter_function(is_constructor, self_scope).0),
{
    lemma_grows_reflexive(s);
    let numbered = s.numbered();
    lemma_same_table_grows(s, numbered);
    let own_self = if is_constructor {
        Var::Fresh(numbered.next_var)
    } else {
        self_scope
    };
    let with_self = if is_constructor {
        numbered.with_new_scope().push_self(own_self)
    } else {
        numbered.push_self(self_scope)
    };
    if is_constructor {
        lemma_new_scope_grows(numbered);
        lemma_same_table_grows(numbered.with_new_scope(), with_self);
        lemma_grows_transitive(numbered, numbered.with_new_scope(), with_self);
    } else {
        lemma_same_table_grows(numbered, with_self);
    }
    lemma_grows_transitive(s, numbered, with_self);
    lemma_same_table_grows(with_self, with_self.pop_self());
    lemma_grows_transitive(s, with_self, with_self.pop_self());
    lemma_new_scope_grows(with_self);
    let scoped = with_self.with_new_scope();
    lemma_grows_transitive(s, with_self, scoped);
    let own_local = Var::Fresh(with_self.next_var);
    let entered = scoped.push_local(own_local).with_return_slot(None).with_frame(s.next_frame);
    lemma_same_table_grows(scoped, entered);
    lemma_grows_transitive(s, scoped, entered);
}

/// Leaving the scopes of a function takes nothing away.
pub proof fn lemma_leave_function_grows(
    s: SolverV,
    outer_frame: u64,
    outer_return: Option<TyV>,
    is_constructor: bool,
    own_self: Var,
)
    ensures
        s.grows_into(s.leave_function(outer_frame, outer_return, is_constructor, own_self).0),
{
    lemma_grows_reflexive(s);
    let closed = if is_constructor {
        s.seal(own_self)
    } else {
        s
    };
    if is_constructor {
        lemma_seal_grows(s, own_self);
    }
    let left = closed.with_return_slot(outer_return).with_frame(outer_frame).pop_local().pop_self();
    lemma_same_table_grows(closed, left);
    lemma_grows_transitive(s, closed, left);
}

} // verus!
