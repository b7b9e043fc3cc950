use vstd::prelude::*;
use crate::error::{TypeError, TypeErrorV};
use crate::location::Location;
use crate::parse::expression::{Expression, ExpressionBox, Literal, Scope};
use crate::query::opt_view;
use crate::solver::{Solver, SolverV, empty_record};
use crate::ty::{Field, FieldV, Record, RecordOp, RecordV, State, Ty, TyV, Var};
use crate::unify::{outcome_view, record_outcome_view, unit_view};

verus! {

/// An empty record that grows when written to.
pub open spec fn open_record() -> RecordV {
    RecordV { fields: Seq::empty(), state: State::Extendable }
}

/// The type that the kind of a literal gives it, where the kind alone decides.
pub open spec fn literal_type(literal: Literal) -> Option<TyV> {
    match literal {
        Literal::True => Some(TyV::Bool),
        Literal::False => Some(TyV::Bool),
        Literal::Undefined => Some(TyV::Undefined),
        Literal::Noone => Some(TyV::Noone),
        Literal::String(_) => Some(TyV::Str),
        Literal::Real(_) => Some(TyV::Real),
        Literal::Hex(_) => Some(TyV::Real),
        Literal::NaN => Some(TyV::Real),
        Literal::Infinity => Some(TyV::Real),
        Literal::Pi => Some(TyV::Real),
        Literal::PointerNull => Some(TyV::Any),
        Literal::PointerInvalid => Some(TyV::Any),
        Literal::Array(_) => None,
        Literal::Struct(_) => None,
    }
}

/// The type that the kind of a literal gives it, where the kind alone decides.
pub fn literal_kind(literal: &Literal) -> (out: Option<Ty>)
    ensures
        opt_view(out) == literal_type(*literal),
{
    match literal {
        Literal::True => Some(Ty::Bool),
        Literal::False => Some(Ty::Bool),
        Literal::Undefined => Some(Ty::Undefined),
        Literal::Noone => Some(Ty::Noone),
        Literal::String(_) => Some(Ty::Str),
        Literal::Real(_) => Some(Ty::Real),
        Literal::Hex(_) => Some(Ty::Real),
        Literal::NaN => Some(Ty::Real),
        Literal::Infinity => Some(Ty::Real),
        Literal::Pi => Some(Ty::Real),
        Literal::PointerNull => Some(Ty::Any),
        Literal::PointerInvalid => Some(Ty::Any),
        Literal::Array(_) => None,
        Literal::Struct(_) => None,
    }
}

impl SolverV {
    /// The term that stands for a variable, and the state in which the variable is bound to
    /// the end of its chain: the term is the basic kind bound at the end of the chain, or else
    /// the variable at the end of the chain.
    pub open spec fn canonize_var(self, var: Var, location: Location) -> (
        SolverV,
        Result<TyV, TypeErrorV>,
    ) {
        match self.root_of(var) {
            None => (self, Err(TypeErrorV::LimitExceeded(location))),
            Some(root) => {
                let after = if root != var {
                    self.bind(var, TyV::Var(root))
                } else {
                    self
                };
                (
                    after,
                    Ok(
                        if after.subs.contains_key(root) && (after.subs[root].is_basic()
                            || after.subs[root] is Any) {
                            after.subs[root]
                        } else {
                            TyV::Var(root)
                        },
                    ),
                )
            },
        }
    }

    /// The term that stands for an expression in the elaboration in progress.
    pub open spec fn canonize(self, expr: ExpressionBox) -> (SolverV, Result<TyV, TypeErrorV>) {
        self.canonize_var(self.var_for(expr), expr.1)
    }

    /// Constrains `expr` to have the type `ty`.
    pub open spec fn expr_eq_ty(self, expr: ExpressionBox, ty: TyV) -> (
        SolverV,
        Result<(), TypeErrorV>,
    ) {
        let (after, own) = self.canonize(expr);
        match own {
            Err(e) => (after, Err(e)),
            Ok(own) => after.unify_tys(own, ty, expr.1),
        }
    }

    /// Constrains `target` to have the type of `expr`.
    pub open spec fn expr_eq_expr(self, target: ExpressionBox, expr: ExpressionBox) -> (
        SolverV,
        Result<(), TypeErrorV>,
    ) {
        let (after, ty) = self.canonize(expr);
        match ty {
            Err(e) => (after, Err(e)),
            Ok(ty) => after.expr_eq_ty(target, ty),
        }
    }

    /// Constrains what the function being elaborated returns: the first type is kept, every
    /// later one is unified with it.
    pub open spec fn constrain_return(self, ty: TyV, location: Location) -> (
        SolverV,
        Result<(), TypeErrorV>,
    ) {
        match self.return_slot {
            Some(previous) => self.unify_tys(previous, ty, location),
            None => (self.with_return_slot(Some(ty)), Ok(())),
        }
    }

    /// The scope that a bare name belongs to: the local scope in use where it holds the name,
    /// the self scope in use otherwise.
    pub open spec fn scope_of(self, name: Seq<char>) -> Var {
        if self.scope_contains(self.local_var(), name) {
            self.local_var()
        } else {
            self.self_var()
        }
    }

    /// The type of the field of that name in the record that `scope` stands for.
    pub open spec fn lookup_in(self, scope: Var, name: Seq<char>) -> Option<TyV> {
        match self.record_at(scope) {
            Some(reached) => if reached.record.contains(name) {
                Some(reached.record.field(name).ty)
            } else {
                None
            },
            None => None,
        }
    }

    /// Constrains `object` to be a record that holds the field `name`, met by an access of
    /// kind `op` with the type `ty`.
    pub open spec fn constrain_field(
        self,
        object: ExpressionBox,
        name: Seq<char>,
        field: FieldV,
    ) -> (SolverV, Result<(), TypeErrorV>) {
        self.expr_eq_ty(object, TyV::Record(empty_record().with_field(name, field)))
    }

    /// Constrains `object` to be a record that holds the field `name`, read with the type of
    /// `expr`.
    pub open spec fn constrain_member(
        self,
        expr: ExpressionBox,
        object: ExpressionBox,
        name: Seq<char>,
    ) -> (SolverV, Result<(), TypeErrorV>) {
        let (after, ty) = self.canonize(expr);
        match ty {
            Err(e) => (after, Err(e)),
            Ok(ty) => after.constrain_field(
                object,
                name,
                FieldV { ty, location: expr.1, op: RecordOp::Read },
            ),
        }
    }

    /// The rule of an access: the accessed scope or object is constrained to hold the member
    /// that is read; the indexes of an array are numbers, and the array holds what is read.
    pub open spec fn constrain_access(self, expr: ExpressionBox, scope: Scope, member: ExpressionBox) -> (
        SolverV,
        Result<(), TypeErrorV>,
    ) {
        match scope {
            Scope::Global => match *member.0 {
                Expression::Identifier(name) => {
                    let (after, ty) = self.canonize(expr);
                    match ty {
                        Err(e) => (after, Err(e)),
                        Ok(ty) => after.apply_global(
                            name@,
                            FieldV { ty, location: expr.1, op: RecordOp::Read },
                        ),
                    }
                },
                _ => (self, Ok(())),
            },
            Scope::Current => match *member.0 {
                Expression::Identifier(name) => {
                    let (after, ty) = self.canonize(expr);
                    match ty {
                        Err(e) => (after, Err(e)),
                        Ok(ty) => after.apply_at(
                            after.self_var(),
                            name@,
                            FieldV { ty, location: expr.1, op: RecordOp::Read },
                        ),
                    }
                },
                _ => (self, Ok(())),
            },
            Scope::Dot(object) => match *member.0 {
                Expression::Identifier(name) => self.constrain_member(expr, object, name@),
                _ => (self, Ok(())),
            },
            Scope::Struct(key) => match *key.0 {
                Expression::Literal(Literal::String(name)) => self.constrain_member(
                    expr,
                    member,
                    name@,
                ),
                _ => (self, Ok(())),
            },
            Scope::Array(index_one, index_two, _) => {
                let (after, ty) = self.canonize(expr);
                match ty {
                    Err(e) => (after, Err(e)),
                    Ok(ty) => {
                        let (first, one) = after.expr_eq_ty(index_one, TyV::Real);
                        match one {
                            Err(e) => (first, Err(e)),
                            Ok(()) => {
                                let (second, two) = match index_two {
                                    Some(index_two) => first.expr_eq_ty(index_two, TyV::Real),
                                    None => (first, Ok(())),
                                };
                                match two {
                                    Err(e) => (second, Err(e)),
                                    Ok(()) => second.expr_eq_ty(member, TyV::Array(Box::new(ty))),
                                }
                            },
                        }
                    },
                }
            },
            Scope::DsMap(_) => (self, Ok(())),
            Scope::Grid(_, _) => (self, Ok(())),
            Scope::List(_) => (self, Ok(())),
        }
    }

    /// The rule of a logical operator: both operands and the result are conditions.
    pub open spec fn constrain_logical(
        self,
        expr: ExpressionBox,
        left: ExpressionBox,
        right: ExpressionBox,
    ) -> (SolverV, Result<(), TypeErrorV>) {
        let (first, one) = self.expr_eq_ty(left, TyV::Bool);
        match one {
            Err(e) => (first, Err(e)),
            Ok(()) => {
                let (second, two) = first.expr_eq_ty(right, TyV::Bool);
                match two {
                    Err(e) => (second, Err(e)),
                    Ok(()) => second.expr_eq_ty(expr, TyV::Bool),
                }
            },
        }
    }

    /// The rule of a comparison: the operands have one type, the result is a condition.
    pub open spec fn constrain_equality(
        self,
        expr: ExpressionBox,
        left: ExpressionBox,
        right: ExpressionBox,
    ) -> (SolverV, Result<(), TypeErrorV>) {
        let (first, one) = self.expr_eq_expr(right, left);
        match one {
            Err(e) => (first, Err(e)),
            Ok(()) => first.expr_eq_ty(expr, TyV::Bool),
        }
    }

    /// The rule of an operator that computes: the operands have one type, and the result has
    /// the type of the left operand.
    pub open spec fn constrain_evaluation(
        self,
        expr: ExpressionBox,
        left: ExpressionBox,
        right: ExpressionBox,
    ) -> (SolverV, Result<(), TypeErrorV>) {
        let (first, one) = self.expr_eq_expr(right, left);
        match one {
            Err(e) => (first, Err(e)),
            Ok(()) => first.expr_eq_expr(expr, left),
        }
    }

    /// The rule of a ternary: the condition is a condition, the branches have one type, and
    /// the result has that type.
    pub open spec fn constrain_ternary(
        self,
        expr: ExpressionBox,
        condition: ExpressionBox,
        true_value: ExpressionBox,
        false_value: ExpressionBox,
    ) -> (SolverV, Result<(), TypeErrorV>) {
        let (first, one) = self.expr_eq_ty(condition, TyV::Bool);
        match one {
            Err(e) => (first, Err(e)),
            Ok(()) => {
                let (second, two) = first.expr_eq_expr(false_value, true_value);
                match two {
                    Err(e) => (second, Err(e)),
                    Ok(()) => second.expr_eq_expr(expr, true_value),
                }
            },
        }
    }

    /// The rule of an operator with one operand: the operand and the result are of `kind`.
    pub open spec fn constrain_operand(self, expr: ExpressionBox, operand: ExpressionBox, kind: TyV) -> (
        SolverV,
        Result<(), TypeErrorV>,
    ) {
        let (first, one) = self.expr_eq_ty(operand, kind);
        match one {
            Err(e) => (first, Err(e)),
            Ok(()) => first.expr_eq_ty(expr, kind),
        }
    }

    /// The rule of a bare name: the name is read in the scope it belongs to, with the type of
    /// the expression.
    pub open spec fn constrain_identifier(self, expr: ExpressionBox, name: Seq<char>) -> (
        SolverV,
        Result<(), TypeErrorV>,
    ) {
        let (first, ty) = self.canonize(expr);
        match ty {
            Err(e) => (first, Err(e)),
            Ok(ty) => first.apply_at(
                first.scope_of(name),
                name,
                FieldV { ty, location: expr.1, op: RecordOp::Read },
            ),
        }
    }

    /// Unifies the members of an array literal from the place `i` on with the type of the
    /// first member.
    pub open spec fn unify_members(self, first: TyV, members: Seq<ExpressionBox>, i: nat) -> (
        SolverV,
        Result<(), TypeErrorV>,
    )
        decreases members.len() - i,
    {
        if i >= members.len() {
            (self, Ok(()))
        } else {
            let (after, other) = self.canonize(members[i as int]);
            match other {
                Err(e) => (after, Err(e)),
                Ok(other) => {
                    let (unified, out) = after.unify_tys(first, other, members[i as int].1);
                    match out {
                        Err(e) => (unified, Err(e)),
                        Ok(()) => unified.unify_members(first, members, i + 1),
                    }
                },
            }
        }
    }

    /// Applies the members of a struct literal from the place `i` on to `record` as fields
    /// that were written.
    pub open spec fn build_struct(
        self,
        record: RecordV,
        members: Seq<(String, ExpressionBox)>,
        i: nat,
        location: Location,
    ) -> (SolverV, Result<RecordV, TypeErrorV>)
        decreases members.len() - i,
    {
        if i >= members.len() {
            (self, Ok(record))
        } else {
            let (after, ty) = self.canonize(members[i as int].1);
            match ty {
                Err(e) => (after, Err(e)),
                Ok(ty) => {
                    let (applied, op) = record.apply_field(
                        members[i as int].0@,
                        FieldV { ty, location, op: RecordOp::Write },
                    );
                    match op {
                        Err(e) => (after, Err(e)),
                        Ok(op) => {
                            let (committed, out) = after.commit(op);
                            match out {
                                Err(e) => (committed, Err(e)),
                                Ok(()) => committed.build_struct(applied, members, i + 1, location),
                            }
                        },
                    }
                },
            }
        }
    }

    /// The type of a literal.
    pub open spec fn type_literal(self, expr: ExpressionBox, literal: Literal) -> (
        SolverV,
        Result<TyV, TypeErrorV>,
    ) {
        match literal {
            Literal::Array(members) => if members@.len() == 0 {
                (self, Ok(TyV::Array(Box::new(TyV::Any))))
            } else {
                let (after, first) = self.canonize(members@[0]);
                match first {
                    Err(e) => (after, Err(e)),
                    Ok(first) => {
                        let (unified, out) = after.unify_members(first, members@, 1);
                        match out {
                            Err(e) => (unified, Err(e)),
                            Ok(()) => (unified, Ok(TyV::Array(Box::new(first)))),
                        }
                    },
                }
            },
            Literal::Struct(members) => {
                let (after, record) = self.build_struct(open_record(), members@, 0, expr.1);
                match record {
                    Err(e) => (after, Err(e)),
                    Ok(record) => (after, Ok(TyV::Record(record))),
                }
            },
            _ => (self, Ok(literal_type(literal).unwrap())),
        }
    }

    /// The rule of a literal: the expression has the type of the literal.
    pub open spec fn constrain_literal(self, expr: ExpressionBox, literal: Literal) -> (
        SolverV,
        Result<(), TypeErrorV>,
    ) {
        let (after, ty) = self.type_literal(expr, literal);
        match ty {
            Err(e) => (after, Err(e)),
            Ok(ty) => after.expr_eq_ty(expr, ty),
        }
    }
}

impl<'a> Solver<'a> {
    /// The term that stands for a variable: the basic kind bound at the end of its chain, or
    /// else the variable at the end of the chain. The variable is re-bound to the end of its
    /// chain on the way.
    pub fn canonize_var(&mut self, var: Var, location: Location) -> (out: Result<Ty, TypeError>)
        ensures
            (final(self)@, outcome_view(out)) == old(self)@.canonize_var(var, location),
    {
        match self.root_of(var) {
            None => Err(TypeError::LimitExceeded(location)),
            Some(root) => {
                if root != var {
                    self.bind_var(var, Ty::Var(root));
                }
                match self.binding(root) {
                    Some(term) => if term.is_basic() {
                        Ok(term)
                    } else {
                        match term {
                            Ty::Any => Ok(Ty::Any),
                            _ => Ok(Ty::Var(root)),
                        }
                    },
                    None => Ok(Ty::Var(root)),
                }
            },
        }
    }

    /// The term that stands for an expression in the elaboration in progress.
    pub fn canonize(&mut self, expr: &ExpressionBox) -> (out: Result<Ty, TypeError>)
        ensures
            (final(self)@, outcome_view(out)) == old(self)@.canonize(*expr),
    {
        let var = self.var_for(expr);
        self.canonize_var(var, expr.location())
    }

    /// Constrains `target` to have the type of `expr`.
    pub fn expr_eq_expr(&mut self, target: &ExpressionBox, expr: &ExpressionBox) -> (out: Result<
        (),
        TypeError,
    >)
        ensures
            (final(self)@, unit_view(out)) == old(self)@.expr_eq_expr(*target, *expr),
    {
        let ty = self.canonize(expr)?;
        self.expr_eq_ty(target, ty)
    }

    /// Constrains `expr` to have the type `ty`.
    pub fn expr_eq_ty(&mut self, expr: &ExpressionBox, ty: Ty) -> (out: Result<(), TypeError>)
        ensures
            (final(self)@, unit_view(out)) == old(self)@.expr_eq_ty(*expr, ty@),
    {
        let own = self.canonize(expr)?;
        self.unify_tys(&own, &ty, expr.location())
    }

    /// Constrains `var` to have the type `ty`.
    pub fn var_eq_ty(&mut self, var: Var, ty: Ty, location: Location) -> (out: Result<
        (),
        TypeError,
    >)
        ensures
            (final(self)@, unit_view(out)) == old(self)@.unify_tys(TyV::Var(var), ty@, location),
    {
        self.unify_var(&var, &ty, location)
    }

    /// Constrains what the function being elaborated returns.
    pub fn constrain_return(&mut self, ty: Ty, location: Location) -> (out: Result<(), TypeError>)
        ensures
            (final(self)@, unit_view(out)) == old(self)@.constrain_return(ty@, location),
    {
        match self.return_slot() {
            None => {
                self.set_return_slot(Some(ty));
                Ok(())
            },
            Some(previous) => self.unify_tys(&previous, &ty, location),
        }
    }

    /// The scope that a bare name belongs to: the local scope in use where it holds the name,
    /// the self scope in use otherwise.
    pub fn scope_of(&self, name: &str) -> (scope: Var)
        ensures
            scope == self@.scope_of(name@),
    {
        let local = self.local_var();
        if self.scope_contains(local, name) {
            local
        } else {
            self.current_self_var()
        }
    }

    /// The type of the field of that name in the record that `scope` stands for.
    pub fn lookup_in(&self, scope: Var, name: &str) -> (found: Option<Ty>)
        ensures
            opt_view(found) == self@.lookup_in(scope, name@),
    {
        match self.record_at(scope) {
            Some((_, record)) => match record.get(name) {
                Some(field) => Some(field.ty.duplicate()),
                None => None,
            },
            None => None,
        }
    }

    /// Constrains `object` to be a record that holds `field` under `name`.
    pub fn constrain_field(&mut self, object: &ExpressionBox, name: &str, field: Field) -> (out:
        Result<(), TypeError>)
        ensures
            (final(self)@, unit_view(out)) == old(self)@.constrain_field(*object, name@, field@),
    {
        let mut record = Record::inferred();
        let ghost start = record@;
        let ghost added = field@;
        match record.apply_field(name, field) {
            Ok(_) => {},
            Err(_) => {},
        }
        proof {
            assert(!start.contains(name@));
            assert(record@ == empty_record().with_field(name@, added));
        }
        self.expr_eq_ty(object, Ty::Record(record))
    }

    /// Constrains `object` to be a record that holds the field `name`, read with the type of
    /// `expr`.
    pub fn constrain_member(&mut self, expr: &ExpressionBox, object: &ExpressionBox, name: &str) -> (out:
        Result<(), TypeError>)
        ensures
            (final(self)@, unit_view(out)) == old(self)@.constrain_member(*expr, *object, name@),
    {
        let ty = self.canonize(expr)?;
        self.constrain_field(object, name, Field { ty, location: expr.location(), op: RecordOp::Read })
    }

    /// Applies the rule of an access: the accessed scope or object is constrained to hold the
    /// member that is read.
    pub fn constrain_access(&mut self, expr: &ExpressionBox, scope: &Scope, member: &ExpressionBox) -> (out:
        Result<(), TypeError>)
        ensures
            (final(self)@, unit_view(out)) == old(self)@.constrain_access(*expr, *scope, *member),
    {
        let location = expr.location();
        match scope {
            Scope::Global => match member.expression() {
                Expression::Identifier(name) => {
                    let ty = self.canonize(expr)?;
                    self.apply_global(name.as_str(), Field { ty, location, op: RecordOp::Read })
                },
                _ => Ok(()),
            },
            Scope::Current => match member.expression() {
                Expression::Identifier(name) => {
                    let ty = self.canonize(expr)?;
                    let target = self.current_self_var();
                    self.apply_at(target, name.as_str(), Field { ty, location, op: RecordOp::Read })
                },
                _ => Ok(()),
            },
            Scope::Dot(object) => match member.expression() {
                Expression::Identifier(name) => self.constrain_member(expr, object, name.as_str()),
                _ => Ok(()),
            },
            Scope::Struct(key) => match key.expression() {
                Expression::Literal(Literal::String(name)) => self.constrain_member(
                    expr,
                    member,
                    name.as_str(),
                ),
                _ => Ok(()),
            },
            Scope::Array(index_one, index_two, _) => {
                let ty = self.canonize(expr)?;
                self.expr_eq_ty(index_one, Ty::Real)?;
                match index_two {
                    Some(index_two) => {
                        self.expr_eq_ty(index_two, Ty::Real)?;
                    },
                    None => {},
                }
                self.expr_eq_ty(member, Ty::Array(Box::new(ty)))
            },
            Scope::DsMap(_) => Ok(()),
            Scope::Grid(_, _) => Ok(()),
            Scope::List(_) => Ok(()),
        }
    }

    /// Applies the rule of a logical operator.
    pub fn constrain_logical(&mut self, expr: &ExpressionBox, left: &ExpressionBox, right: &ExpressionBox) -> (out:
        Result<(), TypeError>)
        ensures
            (final(self)@, unit_view(out)) == old(self)@.constrain_logical(*expr, *left, *right),
    {
        self.expr_eq_ty(left, Ty::Bool)?;
        self.expr_eq_ty(right, Ty::Bool)?;
        self.expr_eq_ty(expr, Ty::Bool)
    }

    /// Applies the rule of a comparison.
    pub fn constrain_equality(&mut self, expr: &ExpressionBox, left: &ExpressionBox, right: &ExpressionBox) -> (out:
        Result<(), TypeError>)
        ensures
            (final(self)@, unit_view(out)) == old(self)@.constrain_equality(*expr, *left, *right),
    {
        self.expr_eq_expr(right, left)?;
        self.expr_eq_ty(expr, Ty::Bool)
    }

    /// Applies the rule of an operator that computes.
    pub fn constrain_evaluation(&mut self, expr: &ExpressionBox, left: &ExpressionBox, right: &ExpressionBox) -> (out:
        Result<(), TypeError>)
        ensures
            (final(self)@, unit_view(out)) == old(self)@.constrain_evaluation(*expr, *left, *right),
    {
        self.expr_eq_expr(right, left)?;
        self.expr_eq_expr(expr, left)
    }

    /// Applies the rule of a ternary.
    pub fn constrain_ternary(&mut self, expr: &ExpressionBox, condition: &ExpressionBox, true_value: &ExpressionBox, false_value: &ExpressionBox) -> (out:
        Result<(), TypeError>)
        ensures
            (final(self)@, unit_view(out)) == old(self)@.constrain_ternary(
                *expr,
                *condition,
                *true_value,
                *false_value,
            ),
    {
        self.expr_eq_ty(condition, Ty::Bool)?;
        self.expr_eq_expr(false_value, true_value)?;
        self.expr_eq_expr(expr, true_value)
    }

    /// Applies the rule of an operator with one operand.
    pub fn constrain_operand(&mut self, expr: &ExpressionBox, operand: &ExpressionBox, kind: Ty) -> (out:
        Result<(), TypeError>)
        ensures
            (final(self)@, unit_view(out)) == old(self)@.constrain_operand(*expr, *operand, kind@),
    {
        self.expr_eq_ty(operand, kind.duplicate())?;
        self.expr_eq_ty(expr, kind)
    }

    /// Applies the rule of a bare name.
    pub fn constrain_identifier(&mut self, expr: &ExpressionBox, name: &str) -> (out: Result<
        (),
        TypeError,
    >)
        ensures
            (final(self)@, unit_view(out)) == old(self)@.constrain_identifier(*expr, name@),
    {
        let ty = self.canonize(expr)?;
        let scope = self.scope_of(name);
        self.apply_at(scope, name, Field { ty, location: expr.location(), op: RecordOp::Read })
    }

    /// Unifies the members of an array literal from the second on with the type of the first.
    pub fn unify_members(&mut self, first: &Ty, members: &Vec<ExpressionBox>) -> (out: Result<
        (),
        TypeError,
    >)
        ensures
            (final(self)@, unit_view(out)) == old(self)@.unify_members(first@, members@, 1),
    {
        let mut i: usize = 1;
        while i < members.len()
            invariant
                1 <= i,
                self@.unify_members(first@, members@, i as nat) == old(self)@.unify_members(
                    first@,
                    members@,
                    1,
                ),
            decreases members.len() - i,
        {
            let other = self.canonize(&members[i])?;
            self.unify_tys(first, &other, members[i].location())?;
            i += 1;
        }
        Ok(())
    }

    /// Applies the members of a struct literal to an empty record as fields that were written.
    pub fn build_struct(&mut self, members: &Vec<(String, ExpressionBox)>, location: Location) -> (out:
        Result<Record, TypeError>)
        ensures
            (final(self)@, record_outcome_view(out)) == old(self)@.build_struct(
                open_record(),
                members@,
                0,
                location,
            ),
    {
        let mut record = Record::extendable();
        let mut i: usize = 0;
        while i < members.len()
            invariant
                i <= members.len(),
                self@.build_struct(record@, members@, i as nat, location) == old(self)@.build_struct(
                    open_record(),
                    members@,
                    0,
                    location,
                ),
            decreases members.len() - i,
        {
            let ty = self.canonize(&members[i].1)?;
            let op = record.apply_field(
                members[i].0.as_str(),
                Field { ty, location, op: RecordOp::Write },
            )?;
            self.commit(op)?;
            i += 1;
        }
        Ok(record)
    }

    /// The type of a literal.
    pub fn type_literal(&mut self, expr: &ExpressionBox, literal: &Literal) -> (out: Result<
        Ty,
        TypeError,
    >)
        ensures
            (final(self)@, outcome_view(out)) == old(self)@.type_literal(*expr, *literal),
    {
        match literal {
            Literal::Array(members) => {
                if members.len() == 0 {
                    assert(Ty::Any@ == TyV::Any);
                    Ok(Ty::Array(Box::new(Ty::Any)))
                } else {
                    let first = self.canonize(&members[0])?;
                    self.unify_members(&first, members)?;
                    Ok(Ty::Array(Box::new(first)))
                }
            },
            Literal::Struct(members) => {
                let record = self.build_struct(members, expr.location())?;
                Ok(Ty::Record(record))
            },
            _ => match literal_kind(literal) {
                Some(ty) => Ok(ty),
                None => Ok(Ty::Any),
            },
        }
    }

    /// Applies the rule of a literal: the expression has the type of the literal.
    pub fn constrain_literal(&mut self, expr: &ExpressionBox, literal: &Literal) -> (out: Result<
        (),
        TypeError,
    >)
        ensures
            (final(self)@, unit_view(out)) == old(self)@.constrain_literal(*expr, *literal),
    {
        let ty = self.type_literal(expr, literal)?;
        self.expr_eq_ty(expr, ty)
    }
}

} // verus!
