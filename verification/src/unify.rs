use vstd::prelude::*;
use crate::error::{TypeError, TypeErrorV};
use crate::location::Location;
use crate::record::{FieldOp, FieldOpV};
use crate::solver::{Head, Solver, SolverV, TermHead};
use crate::ty::{
    Call,
    Def,
    Field,
    FieldV,
    Func,
    FuncV,
    Record,
    RecordV,
    Ty,
    TyV,
    Var,
    fields_view,
    tys_view,
};

verus! {

/// The mathematical value of the outcome of a unification.
pub open spec fn outcome_view(out: Result<Ty, TypeError>) -> Result<TyV, TypeErrorV> {
    match out {
        Ok(ty) => Ok(ty@),
        Err(e) => Err(e@),
    }
}

/// The mathematical value of the outcome of the unification of two terms that are no variables.
pub open spec fn merged_view(out: Result<Option<Ty>, TypeError>) -> Result<Option<TyV>, TypeErrorV> {
    match out {
        Ok(Some(ty)) => Ok(Some(ty@)),
        Ok(None) => Ok(None),
        Err(e) => Err(e@),
    }
}

/// The mathematical value of the outcome of the unification of two lists of terms.
pub open spec fn list_view(out: Result<Vec<Ty>, TypeError>) -> Result<Seq<TyV>, TypeErrorV> {
    match out {
        Ok(tys) => Ok(tys_view(tys@)),
        Err(e) => Err(e@),
    }
}

/// The mathematical value of the outcome of the merge of two records.
pub open spec fn record_outcome_view(out: Result<Record, TypeError>) -> Result<RecordV, TypeErrorV> {
    match out {
        Ok(record) => Ok(record@),
        Err(e) => Err(e@),
    }
}

/// The mathematical value of an outcome that carries no term.
pub open spec fn unit_view(out: Result<(), TypeError>) -> Result<(), TypeErrorV> {
    match out {
        Ok(()) => Ok(()),
        Err(e) => Err(e@),
    }
}

impl TyV {
    /// Whether the term is one of the kinds without parts.
    pub open spec fn is_basic(self) -> bool {
        self is Undefined || self is Noone || self is Bool || self is Real || self is Str
    }
}

impl FuncV {
    pub open spec fn parameters(self) -> Seq<TyV> {
        match self {
            FuncV::Def { parameters, .. } => parameters,
            FuncV::Call { parameters, .. } => parameters,
        }
    }

    pub open spec fn return_type(self) -> TyV {
        match self {
            FuncV::Def { return_type, .. } => *return_type,
            FuncV::Call { return_type, .. } => *return_type,
        }
    }

    /// The signature that two unified signatures share: that of a definition if one of them
    /// is one.
    pub open spec fn merged(self, other: FuncV, parameters: Seq<TyV>, return_type: TyV) -> FuncV {
        match (self, other) {
            (FuncV::Def { binding, .. }, _) => FuncV::Def {
                binding,
                parameters,
                return_type: Box::new(return_type),
            },
            (_, FuncV::Def { binding, .. }) => FuncV::Def {
                binding,
                parameters,
                return_type: Box::new(return_type),
            },
            _ => FuncV::Call { parameters, return_type: Box::new(return_type) },
        }
    }
}

impl RecordV {
    /// The place of the first field at or after `i` that `other` lacks and does not admit.
    pub open spec fn refusal_from(self, other: RecordV, i: nat) -> Option<int>
        decreases self.fields.len() - i,
    {
        if i >= self.fields.len() {
            None
        } else if !other.contains(self.fields[i as int].0) && !other.state.admits(
            self.fields[i as int].1.op,
        ) {
            Some(i as int)
        } else {
            self.refusal_from(other, i + 1)
        }
    }
}

impl SolverV {
    /// Of two variables that are made one, the one that stays at the end of the chain: the
    /// first, unless only the second stands for a function kept for elaboration.
    pub open spec fn prefer(self, x: Var, y: Var) -> Var {
        if self.is_template(y) && !self.is_template(x) {
            y
        } else {
            x
        }
    }

    /// The state in which two variables are one: the preferred one is bound to `term`, where
    /// there is one, and the other is bound to the preferred one. Neither binding is made
    /// where it would take something away from what a variable stands for.
    pub open spec fn link(self, x: Var, y: Var, term: Option<TyV>) -> SolverV {
        let stays = self.prefer(x, y);
        let goes = if stays == x {
            y
        } else {
            x
        };
        let bound = match term {
            Some(t) => self.rebind(stays, t),
            None => self,
        };
        bound.rebind(goes, TyV::Var(stays))
    }

    /// Stores a merged term where the two unified terms were reached through variables.
    pub open spec fn settle(self, x: Option<Var>, y: Option<Var>, merged: TyV) -> (SolverV, TyV) {
        match (x, y) {
            (None, None) => (self, merged),
            (Some(x), None) => (self.rebind(x, merged), TyV::Var(x)),
            (None, Some(y)) => (self.rebind(y, merged), TyV::Var(y)),
            (Some(x), Some(y)) => (self.link(x, y, Some(merged)), TyV::Var(self.prefer(x, y))),
        }
    }

    /// Gives the unbound variable `x` the term that `other` is the head of.
    pub open spec fn assign(self, x: Var, x_first: bool, other: Head, location: Location, fuel: nat) -> (
        SolverV,
        Result<TyV, TypeErrorV>,
    ) {
        let term = other.term.unwrap();
        if other.root is None && term is Uninitialized {
            (self, Ok(TyV::Var(x)))
        } else if self.occurs(x, other.form(), fuel) {
            (self, Err(TypeErrorV::Cyclic(x, other.form(), location)))
        } else {
            match other.root {
                None => (self.rebind(x, term), Ok(TyV::Var(x))),
                Some(y) => if x_first {
                    (self.link(x, y, Some(term)), Ok(TyV::Var(self.prefer(x, y))))
                } else {
                    (self.link(y, x, Some(term)), Ok(TyV::Var(self.prefer(y, x))))
                },
            }
        }
    }

    /// Unifies two terms: the state afterwards, and the term that stands for both or the error.
    ///
    /// Both terms are resolved to their heads first. One variable at the end of both chains
    /// needs nothing. An unbound variable is bound to the other term, unless it is reachable
    /// from that term. Two terms that are no variables are unified part by part, and the result
    /// is stored under the variables they were reached through.
    pub open spec fn unify(self, a: TyV, b: TyV, location: Location, fuel: nat) -> (
        SolverV,
        Result<TyV, TypeErrorV>,
    )
        decreases fuel, 1nat,
    {
        if fuel == 0 {
            (self, Err(TypeErrorV::LimitExceeded(location)))
        } else {
            match (self.head(a), self.head(b)) {
                (Some(ha), Some(hb)) => {
                    if ha.root is Some && ha.root == hb.root {
                        (self, Ok(ha.form()))
                    } else {
                        match (ha.term, hb.term) {
                            (None, None) => (
                                self.link(ha.root.unwrap(), hb.root.unwrap(), None),
                                Ok(TyV::Var(self.prefer(ha.root.unwrap(), hb.root.unwrap()))),
                            ),
                            (None, Some(_)) => self.assign(
                                ha.root.unwrap(),
                                true,
                                hb,
                                location,
                                fuel,
                            ),
                            (Some(_), None) => self.assign(
                                hb.root.unwrap(),
                                false,
                                ha,
                                location,
                                fuel,
                            ),
                            (Some(ta), Some(tb)) => {
                                let (after, merged) = self.unify_terms(ta, tb, location, fuel);
                                match merged {
                                    Err(e) => (after, Err(e)),
                                    Ok(None) => (after, Ok(ha.form())),
                                    Ok(Some(m)) => {
                                        let (settled, rep) = after.settle(ha.root, hb.root, m);
                                        (settled, Ok(rep))
                                    },
                                }
                            },
                        }
                    }
                },
                _ => (self, Err(TypeErrorV::LimitExceeded(location))),
            }
        }
    }

    /// Unifies two terms that are no variables: the state afterwards, and the merged term,
    /// `None` where one of the terms opts out of checking.
    pub open spec fn unify_terms(self, ta: TyV, tb: TyV, location: Location, fuel: nat) -> (
        SolverV,
        Result<Option<TyV>, TypeErrorV>,
    )
        decreases fuel, 0nat,
    {
        let rest = (fuel - 1) as nat;
        if fuel == 0 {
            (self, Err(TypeErrorV::LimitExceeded(location)))
        } else if ta is Uninitialized {
            (self, Ok(Some(tb)))
        } else if tb is Uninitialized {
            (self, Ok(Some(ta)))
        } else if ta is Any || tb is Any {
            (self, Ok(None))
        } else if ta.is_basic() && ta == tb {
            (self, Ok(Some(ta)))
        } else {
            match (ta, tb) {
                (TyV::Array(x), TyV::Array(y)) => {
                    let (after, inner) = self.unify(*x, *y, location, rest);
                    match inner {
                        Ok(rep) => (after, Ok(Some(TyV::Array(Box::new(rep))))),
                        Err(e) => (after, Err(e)),
                    }
                },
                (TyV::Record(r1), TyV::Record(r2)) => match r1.refusal_from(r2, 0) {
                    Some(i) => (
                        self,
                        Err(
                            TypeErrorV::IllegalExtension {
                                name: r1.fields[i].0,
                                state: r2.state,
                                location,
                            },
                        ),
                    ),
                    None => {
                        let (after, merged) = self.merge_fields(r1, r2.fields, 0, location, rest);
                        match merged {
                            Ok(m) => (
                                after,
                                Ok(
                                    Some(
                                        TyV::Record(
                                            RecordV {
                                                fields: m.fields,
                                                state: r1.state.join(r2.state),
                                            },
                                        ),
                                    ),
                                ),
                            ),
                            Err(e) => (after, Err(e)),
                        }
                    },
                },
                (TyV::Func(f1), TyV::Func(f2)) => if f1.parameters().len() != f2.parameters().len() {
                    (self, Err(TypeErrorV::Mismatch(ta, tb, location)))
                } else {
                    let (after, parameters) = self.unify_all(
                        f1.parameters(),
                        f2.parameters(),
                        Seq::empty(),
                        location,
                        rest,
                    );
                    match parameters {
                        Err(e) => (after, Err(e)),
                        Ok(ps) => {
                            let (last, ret) = after.unify(
                                f1.return_type(),
                                f2.return_type(),
                                location,
                                rest,
                            );
                            match ret {
                                Err(e) => (last, Err(e)),
                                Ok(rep) => (last, Ok(Some(TyV::Func(f1.merged(f2, ps, rep))))),
                            }
                        },
                    }
                },
                _ => (self, Err(TypeErrorV::Mismatch(ta, tb, location))),
            }
        }
    }

    /// Unifies two lists of equal length place by place, from the place `done.len()` on:
    /// the state afterwards, and `done` followed by the terms that stand for each pair.
    pub open spec fn unify_all(
        self,
        xs: Seq<TyV>,
        ys: Seq<TyV>,
        done: Seq<TyV>,
        location: Location,
        fuel: nat,
    ) -> (SolverV, Result<Seq<TyV>, TypeErrorV>)
        decreases fuel, 2 + xs.len() - done.len(),
    {
        if done.len() >= xs.len() || done.len() >= ys.len() {
            (self, Ok(done))
        } else {
            let i = done.len() as int;
            let (after, one) = self.unify(xs[i], ys[i], location, fuel);
            match one {
                Err(e) => (after, Err(e)),
                Ok(rep) => after.unify_all(xs, ys, done.push(rep), location, fuel),
            }
        }
    }

    /// Applies the fields of `others` from place `i` on to the record `acc`: a field that
    /// `acc` holds is unified with the one applied and takes the term that stands for both.
    pub open spec fn merge_fields(
        self,
        acc: RecordV,
        others: Seq<(Seq<char>, FieldV)>,
        i: nat,
        location: Location,
        fuel: nat,
    ) -> (SolverV, Result<RecordV, TypeErrorV>)
        decreases fuel, 2 + others.len() - i,
    {
        if i >= others.len() {
            (self, Ok(acc))
        } else {
            let name = others[i as int].0;
            let (applied, op) = acc.apply_field(name, others[i as int].1);
            match op {
                Err(e) => (self, Err(e)),
                Ok(FieldOpV::NewValue) => self.merge_fields(applied, others, i + 1, location, fuel),
                Ok(FieldOpV::Unification { previous, new, .. }) => {
                    let (after, one) = self.unify(previous, new, location, fuel);
                    match one {
                        Err(e) => (after, Err(e)),
                        Ok(rep) => after.merge_fields(
                            applied.with_ty(applied.index_of(name), rep),
                            others,
                            i + 1,
                            location,
                            fuel,
                        ),
                    }
                },
            }
        }
    }
}


impl Ty {
    /// Whether the term is one of the kinds without parts.
    pub fn is_basic(&self) -> (yes: bool)
        ensures
            yes == self@.is_basic(),
    {
        match self {
            Ty::Undefined => true,
            Ty::Noone => true,
            Ty::Bool => true,
            Ty::Real => true,
            Ty::Str => true,
            _ => false,
        }
    }

    /// Whether the two terms are of one kind without parts.
    pub fn same_basic(&self, other: &Ty) -> (yes: bool)
        ensures
            yes == (self@.is_basic() && self@ == other@),
    {
        match (self, other) {
            (Ty::Undefined, Ty::Undefined) => true,
            (Ty::Noone, Ty::Noone) => true,
            (Ty::Bool, Ty::Bool) => true,
            (Ty::Real, Ty::Real) => true,
            (Ty::Str, Ty::Str) => true,
            _ => false,
        }
    }
}

impl Func {
    /// The signature that two unified signatures share: that of a definition if one of them
    /// is one.
    pub fn merged(&self, other: &Func, parameters: Vec<Ty>, return_type: Ty) -> (out: Func)
        ensures
            out@ == self@.merged(other@, tys_view(parameters@), return_type@),
    {
        match (self, other) {
            (Func::Def(d), _) => {
                let binding = match &d.binding {
                    Some(b) => Some(b.duplicate()),
                    None => None,
                };
                Func::Def(Def { binding, parameters, return_type: Box::new(return_type) })
            },
            (_, Func::Def(d)) => {
                let binding = match &d.binding {
                    Some(b) => Some(b.duplicate()),
                    None => None,
                };
                Func::Def(Def { binding, parameters, return_type: Box::new(return_type) })
            },
            _ => Func::Call(Call { parameters, return_type: Box::new(return_type) }),
        }
    }
}

impl Record {
    /// The place of the first field that `other` lacks and does not admit.
    pub fn refusal(&self, other: &Record) -> (found: Option<usize>)
        ensures
            match found {
                Some(i) => self@.refusal_from(other@, 0) == Some(i as int) && i < self.fields@.len(),
                None => self@.refusal_from(other@, 0).is_none(),
            },
    {
        let mut i: usize = 0;
        while i < self.fields.len()
            invariant
                i <= self.fields.len(),
                self@.refusal_from(other@, i as nat) == self@.refusal_from(other@, 0),
            decreases self.fields.len() - i,
        {
            let entry = &self.fields[i];
            assert(self@.fields[i as int].0 == entry.0@);
            assert(self@.fields[i as int].1.op == entry.1.op);
            if !other.contains(entry.0.as_str()) && !other.state.can_extend(entry.1.op) {
                return Some(i);
            }
            i += 1;
        }
        None
    }
}

impl<'a> Solver<'a> {
    /// Of two variables that are made one, the one that stays at the end of the chain.
    pub fn prefer(&self, x: Var, y: Var) -> (stays: Var)
        ensures
            stays == self@.prefer(x, y),
    {
        if self.is_template(y) && !self.is_template(x) {
            y
        } else {
            x
        }
    }

    /// Makes two variables one: the preferred one is bound to `term`, where there is one, and
    /// the other is bound to the preferred one.
    pub fn link(&mut self, x: Var, y: Var, term: Option<Ty>) -> (stays: Var)
        ensures
            final(self)@ == old(self)@.link(
                x,
                y,
                match term {
                    Some(t) => Some(t@),
                    None => None,
                },
            ),
            stays == old(self)@.prefer(x, y),
    {
        let stays = self.prefer(x, y);
        let goes = if stays == x {
            y
        } else {
            x
        };
        match term {
            Some(t) => {
                self.rebind(stays, t);
            },
            None => {},
        }
        self.rebind(goes, Ty::Var(stays));
        stays
    }

    /// Stores a merged term where the two unified terms were reached through variables.
    pub fn settle(&mut self, x: Option<Var>, y: Option<Var>, merged: Ty) -> (rep: Ty)
        ensures
            (final(self)@, rep@) == old(self)@.settle(x, y, merged@),
    {
        match (x, y) {
            (None, None) => merged,
            (Some(x), None) => {
                self.rebind(x, merged);
                Ty::Var(x)
            },
            (None, Some(y)) => {
                self.rebind(y, merged);
                Ty::Var(y)
            },
            (Some(x), Some(y)) => {
                let stays = self.link(x, y, Some(merged));
                Ty::Var(stays)
            },
        }
    }

    /// Gives the unbound variable `x` the term that `other` is the head of.
    pub fn assign(&mut self, x: Var, x_first: bool, other: TermHead, location: Location, fuel: usize) -> (out:
        Result<Ty, TypeError>)
        requires
            other.term.is_some(),
        ensures
            (final(self)@, outcome_view(out)) == old(self)@.assign(
                x,
                x_first,
                other@,
                location,
                fuel as nat,
            ),
    {
        let form = other.form();
        let TermHead { root, term } = other;
        let term = term.unwrap();
        let placeholder = match (&root, &term) {
            (None, Ty::Uninitialized) => true,
            _ => false,
        };
        if placeholder {
            return Ok(Ty::Var(x));
        }
        if self.occurs(x, &form, fuel) {
            return Err(TypeError::Cyclic(x, form, location));
        }
        match root {
            None => {
                self.rebind(x, term);
                Ok(Ty::Var(x))
            },
            Some(y) => {
                let stays = if x_first {
                    self.link(x, y, Some(term))
                } else {
                    self.link(y, x, Some(term))
                };
                Ok(Ty::Var(stays))
            },
        }
    }

    /// Unifies two terms, going at most `fuel` deep, and returns the term that stands for both.
    pub fn unify(&mut self, a: &Ty, b: &Ty, location: Location, fuel: usize) -> (out: Result<
        Ty,
        TypeError,
    >)
        ensures
            (final(self)@, outcome_view(out)) == old(self)@.unify(a@, b@, location, fuel as nat),
        decreases fuel, 1nat,
    {
        if fuel == 0 {
            return Err(TypeError::LimitExceeded(location));
        }
        let ha = match self.head(a) {
            Some(h) => h,
            None => {
                return Err(TypeError::LimitExceeded(location));
            },
        };
        let hb = match self.head(b) {
            Some(h) => h,
            None => {
                return Err(TypeError::LimitExceeded(location));
            },
        };
        let same = match (ha.root, hb.root) {
            (Some(x), Some(y)) => x == y,
            _ => false,
        };
        if same {
            return Ok(ha.form());
        }
        match (&ha.term, &hb.term) {
            (None, None) => {
                let stays = self.link(ha.root.unwrap(), hb.root.unwrap(), None);
                Ok(Ty::Var(stays))
            },
            (None, Some(_)) => self.assign(ha.root.unwrap(), true, hb, location, fuel),
            (Some(_), None) => self.assign(hb.root.unwrap(), false, ha, location, fuel),
            (Some(ta), Some(tb)) => {
                match self.unify_terms(ta, tb, location, fuel) {
                    Err(e) => Err(e),
                    Ok(None) => Ok(ha.form()),
                    Ok(Some(m)) => Ok(self.settle(ha.root, hb.root, m)),
                }
            },
        }
    }

    /// Unifies two terms that are no variables and returns the merged term, `None` where one
    /// of the terms opts out of checking.
    pub fn unify_terms(&mut self, ta: &Ty, tb: &Ty, location: Location, fuel: usize) -> (out: Result<
        Option<Ty>,
        TypeError,
    >)
        ensures
            (final(self)@, merged_view(out)) == old(self)@.unify_terms(
                ta@,
                tb@,
                location,
                fuel as nat,
            ),
        decreases fuel, 0nat,
    {
        if fuel == 0 {
            return Err(TypeError::LimitExceeded(location));
        }
        let rest = fuel - 1;
        if let Ty::Uninitialized = ta {
            return Ok(Some(tb.duplicate()));
        }
        if let Ty::Uninitialized = tb {
            return Ok(Some(ta.duplicate()));
        }
        if let Ty::Any = ta {
            return Ok(None);
        }
        if let Ty::Any = tb {
            return Ok(None);
        }
        if ta.same_basic(tb) {
            return Ok(Some(ta.duplicate()));
        }
        match (ta, tb) {
            (Ty::Array(x), Ty::Array(y)) => {
                match self.unify(x, y, location, rest) {
                    Ok(rep) => Ok(Some(Ty::Array(Box::new(rep)))),
                    Err(e) => Err(e),
                }
            },
            (Ty::Record(r1), Ty::Record(r2)) => {
                match r1.refusal(r2) {
                    Some(i) => Err(
                        TypeError::IllegalExtension {
                            name: r1.fields[i].0.clone(),
                            state: r2.state,
                            location,
                        },
                    ),
                    None => {
                        match self.merge_fields(r1.duplicate(), &r2.fields, location, rest) {
                            Ok(m) => Ok(
                                Some(
                                    Ty::Record(
                                        Record {
                                            fields: m.fields,
                                            state: r1.state.stricter(r2.state),
                                        },
                                    ),
                                ),
                            ),
                            Err(e) => Err(e),
                        }
                    },
                }
            },
            (Ty::Func(f1), Ty::Func(f2)) => {
                assert(f1@.parameters() == tys_view(f1.parameters()@));
                assert(f2@.parameters() == tys_view(f2.parameters()@));
                assert(f1@.return_type() == f1.return_type()@);
                assert(f2@.return_type() == f2.return_type()@);
                if f1.parameters().len() != f2.parameters().len() {
                    return Err(TypeError::Mismatch(ta.duplicate(), tb.duplicate(), location));
                }
                match self.unify_all(f1.parameters(), f2.parameters(), location, rest) {
                    Err(e) => Err(e),
                    Ok(ps) => {
                        match self.unify(f1.return_type(), f2.return_type(), location, rest) {
                            Err(e) => Err(e),
                            Ok(rep) => Ok(Some(Ty::Func(f1.merged(f2, ps, rep)))),
                        }
                    },
                }
            },
            _ => Err(TypeError::Mismatch(ta.duplicate(), tb.duplicate(), location)),
        }
    }

    /// Unifies two lists of equal length place by place and returns the terms that stand for
    /// each pair.
    pub fn unify_all(&mut self, xs: &Vec<Ty>, ys: &Vec<Ty>, location: Location, fuel: usize) -> (out:
        Result<Vec<Ty>, TypeError>)
        requires
            xs@.len() == ys@.len(),
        ensures
            (final(self)@, list_view(out)) == old(self)@.unify_all(
                tys_view(xs@),
                tys_view(ys@),
                Seq::empty(),
                location,
                fuel as nat,
            ),
        decreases fuel, 2nat,
    {
        let mut done: Vec<Ty> = Vec::new();
        let mut i: usize = 0;
        assert(tys_view(done@) =~= Seq::empty());
        while i < xs.len()
            invariant
                i <= xs.len(),
                xs@.len() == ys@.len(),
                done@.len() == i,
                self@.unify_all(tys_view(xs@), tys_view(ys@), tys_view(done@), location, fuel as nat)
                    == old(self)@.unify_all(
                    tys_view(xs@),
                    tys_view(ys@),
                    Seq::empty(),
                    location,
                    fuel as nat,
                ),
            decreases xs.len() - i,
        {
            let ghost before = tys_view(done@);
            match self.unify(&xs[i], &ys[i], location, fuel) {
                Err(e) => {
                    return Err(e);
                },
                Ok(rep) => {
                    done.push(rep);
                    assert(tys_view(done@) =~= before.push(rep@));
                },
            }
            i += 1;
        }
        Ok(done)
    }

    /// Applies the fields of `others` to the record `acc` one by one.
    pub fn merge_fields(&mut self, base: Record, others: &Vec<(String, Field)>, location: Location, fuel: usize) -> (out:
        Result<Record, TypeError>)
        ensures
            (final(self)@, record_outcome_view(out)) == old(self)@.merge_fields(
                base@,
                fields_view(others@),
                0,
                location,
                fuel as nat,
            ),
        decreases fuel, 2nat,
    {
        let ghost start = base@;
        let mut acc = base;
        let mut i: usize = 0;
        while i < others.len()
            invariant
                i <= others.len(),
                start == base@,
                self@.merge_fields(acc@, fields_view(others@), i as nat, location, fuel as nat)
                    == old(self)@.merge_fields(
                    start,
                    fields_view(others@),
                    0,
                    location,
                    fuel as nat,
                ),
            decreases others.len() - i,
        {
            let entry = &others[i];
            assert(fields_view(others@)[i as int] == (entry.0@, entry.1@));
            match acc.apply_field(entry.0.as_str(), entry.1.duplicate()) {
                Err(e) => {
                    return Err(e);
                },
                Ok(FieldOp::NewValue) => {},
                Ok(FieldOp::Unification { previous, new, .. }) => {
                    match self.unify(&previous, &new, location, fuel) {
                        Err(e) => {
                            return Err(e);
                        },
                        Ok(rep) => {
                            acc.set_field_ty(entry.0.as_str(), rep);
                        },
                    }
                },
            }
            i += 1;
        }
        Ok(acc)
    }
}

} // verus!
