//! Records only grow: whatever the solver does, a variable that stands for a record keeps
//! standing for a record with at least the same fields that is at least as closed.

use vstd::prelude::*;
use crate::location::Location;
use crate::record::FieldOpV;
use crate::solver::{Head, SolverV, lemma_root_more_fuel};
use crate::ty::{FieldV, RecordV, TyV, Var};

verus! {

impl SolverV {
    /// The record that a variable stands for: the one bound at the end of its chain.
    pub open spec fn held(self, var: Var) -> Option<RecordV> {
        match self.root_of(var) {
            Some(root) => if self.subs.contains_key(root) && self.subs[root] is Record {
                Some(self.subs[root]->Record_0)
            } else {
                None
            },
            None => None,
        }
    }

    /// Whether `later` has taken nothing away from what this state knows of records: every
    /// variable that stands for a record here stands for a record there that holds every
    /// field of it and is at least as closed, and so for the global scope. The claim on
    /// variables is made as long as the count of bindings has not reached the largest number.
    #[verifier::opaque]
    pub open spec fn grows_into(self, later: SolverV) -> bool {
        &&& self.chain_limit <= later.chain_limit
        &&& self.globals.within(later.globals)
        &&& later.chain_limit < usize::MAX ==> forall|var: Var| #[trigger] self.keeps(later, var)
    }

    /// Whether the record that `var` stands for here, if it stands for one, is within the
    /// record that it stands for in `later`.
    pub open spec fn keeps(self, later: SolverV, var: Var) -> bool {
        match self.held(var) {
            Some(record) => later.held(var) matches Some(grown) && record.within(grown),
            None => true,
        }
    }
}

/// What is within a record is within every record that the record is within.
pub proof fn lemma_within_transitive(a: RecordV, b: RecordV, c: RecordV)
    requires
        a.within(b),
        b.within(c),
    ensures
        a.within(c),
{
    assert forall|name: Seq<char>| #[trigger] a.contains(name) implies c.contains(name) by {
        assert(b.contains(name));
    }
}

/// A state grows into itself.
pub proof fn lemma_grows_reflexive(s: SolverV)
    ensures
        s.grows_into(s),
{
    reveal(SolverV::grows_into);
}

/// Growth goes on: what a state grows into grows on with it.
pub proof fn lemma_grows_transitive(a: SolverV, b: SolverV, c: SolverV)
    requires
        a.grows_into(b),
        b.grows_into(c),
    ensures
        a.grows_into(c),
{
    reveal(SolverV::grows_into);
    lemma_within_transitive(a.globals, b.globals, c.globals);
    if c.chain_limit < usize::MAX {
        assert forall|var: Var| #[trigger] a.keeps(c, var) by {
            assert(a.keeps(b, var));
            assert(b.keeps(c, var));
            if a.held(var) is Some {
                let first = a.held(var).unwrap();
                let second = b.held(var).unwrap();
                let third = c.held(var).unwrap();
                lemma_within_transitive(first, second, third);
            }
        }
    }
}

/// The end of a chain is a variable that no chain goes on behind.
pub proof fn lemma_root_is_terminal(s: SolverV, var: Var, fuel: nat)
    requires
        s.root(var, fuel) is Some,
    ensures
        s.terminal(s.root(var, fuel).unwrap()),
    decreases fuel,
{
    if fuel > 0 && s.subs.contains_key(var) && s.subs[var] is Var {
        lemma_root_is_terminal(s, s.subs[var]->Var_0, (fuel - 1) as nat);
    }
}

/// A chain ends at one variable, whatever fuel it is followed with.
pub proof fn lemma_root_is_one(s: SolverV, var: Var, fuel: nat, other: nat)
    requires
        s.root(var, fuel) is Some,
        s.root(var, other) is Some,
    ensures
        s.root(var, fuel) == s.root(var, other),
{
    if fuel <= other {
        lemma_root_more_fuel(s, var, fuel, other);
    } else {
        lemma_root_more_fuel(s, var, other, fuel);
    }
}

/// Binding a variable that ends chains leaves the chains that end elsewhere as they are.
pub proof fn lemma_root_after_bind_elsewhere(s: SolverV, x: Var, ty: TyV, var: Var, fuel: nat)
    requires
        s.terminal(x),
        s.root(var, fuel) is Some,
        s.root(var, fuel) != Some(x),
    ensures
        s.bind(x, ty).root(var, fuel) == s.root(var, fuel),
    decreases fuel,
{
    if fuel > 0 && s.subs.contains_key(var) && s.subs[var] is Var {
        lemma_root_after_bind_elsewhere(s, x, ty, s.subs[var]->Var_0, (fuel - 1) as nat);
    }
}

/// Binding the end of a chain to a term that is no variable leaves the chain as it is.
pub proof fn lemma_root_after_bind_end(s: SolverV, x: Var, ty: TyV, var: Var, fuel: nat)
    requires
        s.terminal(x),
        !(ty is Var),
        s.root(var, fuel) == Some(x),
    ensures
        s.bind(x, ty).root(var, fuel) == Some(x),
    decreases fuel,
{
    if fuel > 0 && s.subs.contains_key(var) && s.subs[var] is Var {
        lemma_root_after_bind_end(s, x, ty, s.subs[var]->Var_0, (fuel - 1) as nat);
    }
}

/// Binding the end of a chain to another variable that ends chains makes the chain one longer.
pub proof fn lemma_root_after_link(s: SolverV, x: Var, other: Var, var: Var, fuel: nat)
    requires
        s.terminal(x),
        s.terminal(other),
        other != x,
        s.root(var, fuel) == Some(x),
    ensures
        s.bind(x, TyV::Var(other)).root(var, fuel + 1) == Some(other),
    decreases fuel,
{
    let after = s.bind(x, TyV::Var(other));
    if fuel > 0 && s.subs.contains_key(var) && s.subs[var] is Var {
        lemma_root_after_link(s, x, other, s.subs[var]->Var_0, (fuel - 1) as nat);
    } else {
        assert(var == x);
        assert(after.root(other, fuel) == Some(other));
    }
}

/// Binding a variable to the end of its own chain leaves every chain with its end.
pub proof fn lemma_root_after_shortcut(s: SolverV, shortened: Var, end: Var, var: Var, fuel: nat)
    requires
        s.root_of(shortened) == Some(end),
        end != shortened,
        s.root(var, fuel) is Some,
    ensures
        s.bind(shortened, TyV::Var(end)).root(var, fuel) == s.root(var, fuel),
    decreases fuel,
{
    let after = s.bind(shortened, TyV::Var(end));
    lemma_root_is_terminal(s, shortened, s.chain_fuel());
    if var == shortened {
        lemma_root_is_one(s, shortened, fuel, s.chain_fuel());
        assert(s.root(shortened, fuel) == Some(end));
        assert(s.subs.contains_key(shortened) && s.subs[shortened] is Var);
        assert(s.root(s.subs[shortened]->Var_0, (fuel - 1) as nat) is Some);
        assert(fuel >= 2);
        assert(after.root(end, (fuel - 1) as nat) == Some(end));
    } else if fuel > 0 && s.subs.contains_key(var) && s.subs[var] is Var {
        lemma_root_after_shortcut(s, shortened, end, s.subs[var]->Var_0, (fuel - 1) as nat);
    }
}

/// Binding a variable takes nothing away where the binding is admitted.
pub proof fn lemma_rebind_grows(s: SolverV, x: Var, ty: TyV)
    ensures
        s.grows_into(s.rebind(x, ty)),
{
    reveal(SolverV::grows_into);
    let after = s.rebind(x, ty);
    if s.admits_binding(x, ty) && after.chain_limit < usize::MAX {
        assert forall|var: Var| #[trigger] s.keeps(after, var) by {
            if s.held(var) is Some {
                let fuel = s.chain_fuel();
                let end = s.root_of(var).unwrap();
                if end != x {
                    lemma_root_after_bind_elsewhere(s, x, ty, var, fuel);
                    lemma_root_more_fuel(after, var, fuel, after.chain_fuel());
                } else {
                    match ty {
                        TyV::Var(other) => {
                            lemma_root_after_link(s, x, other, var, fuel);
                        },
                        _ => {
                            lemma_root_after_bind_end(s, x, ty, var, fuel);
                            lemma_root_more_fuel(after, var, fuel, after.chain_fuel());
                        },
                    }
                }
            }
        }
    }
}

/// Binding a variable to the end of its own chain takes nothing away.
pub proof fn lemma_shortcut_grows(s: SolverV, shortened: Var, end: Var)
    requires
        s.root_of(shortened) == Some(end),
        end != shortened,
    ensures
        s.grows_into(s.bind(shortened, TyV::Var(end))),
{
    reveal(SolverV::grows_into);
    let after = s.bind(shortened, TyV::Var(end));
    if after.chain_limit < usize::MAX {
        assert forall|var: Var| #[trigger] s.keeps(after, var) by {
            if s.held(var) is Some {
                let fuel = s.chain_fuel();
                lemma_root_after_shortcut(s, shortened, end, var, fuel);
                lemma_root_more_fuel(after, var, fuel, after.chain_fuel());
                lemma_root_is_terminal(s, var, fuel);
            }
        }
    }
}

/// Making two variables one takes nothing away.
pub proof fn lemma_link_grows(s: SolverV, x: Var, y: Var, term: Option<TyV>)
    ensures
        s.grows_into(s.link(x, y, term)),
{
    lemma_grows_reflexive(s);
    let stays = s.prefer(x, y);
    let goes = if stays == x {
        y
    } else {
        x
    };
    let bound = match term {
        Some(t) => s.rebind(stays, t),
        None => s,
    };
    if term is Some {
        lemma_rebind_grows(s, stays, term.unwrap());
    }
    lemma_rebind_grows(bound, goes, TyV::Var(stays));
    lemma_grows_transitive(s, bound, s.link(x, y, term));
}

/// Storing a merged term takes nothing away.
pub proof fn lemma_settle_grows(s: SolverV, x: Option<Var>, y: Option<Var>, merged: TyV)
    ensures
        s.grows_into(s.settle(x, y, merged).0),
{
    lemma_grows_reflexive(s);
    match (x, y) {
        (None, None) => {},
        (Some(x), None) => {
            lemma_rebind_grows(s, x, merged);
        },
        (None, Some(y)) => {
            lemma_rebind_grows(s, y, merged);
        },
        (Some(x), Some(y)) => {
            lemma_link_grows(s, x, y, Some(merged));
        },
    }
}

/// Giving an unbound variable a term takes nothing away.
pub proof fn lemma_assign_grows(s: SolverV, x: Var, x_first: bool, other: Head, location: Location, fuel: nat)
    ensures
        s.grows_into(s.assign(x, x_first, other, location, fuel).0),
{
    lemma_grows_reflexive(s);
    let term = other.term.unwrap();
    if other.root is None && term is Uninitialized {
    } else if s.occurs(x, other.form(), fuel) {
    } else {
        match other.root {
            None => {
                lemma_rebind_grows(s, x, term);
            },
            Some(y) => {
                if x_first {
                    lemma_link_grows(s, x, y, Some(term));
                } else {
                    lemma_link_grows(s, y, x, Some(term));
                }
            },
        }
    }
}

/// Unification takes nothing away, whether it succeeds or fails.
pub proof fn lemma_unify_grows(s: SolverV, a: TyV, b: TyV, location: Location, fuel: nat)
    ensures
        s.grows_into(s.unify(a, b, location, fuel).0),
    decreases fuel, 1nat,
{
    lemma_grows_reflexive(s);
    if fuel > 0 {
        match (s.head(a), s.head(b)) {
            (Some(ha), Some(hb)) => {
                if ha.root is Some && ha.root == hb.root {
                } else {
                    match (ha.term, hb.term) {
                        (None, None) => {
                            lemma_link_grows(s, ha.root.unwrap(), hb.root.unwrap(), None);
                        },
                        (None, Some(_)) => {
                            lemma_assign_grows(s, ha.root.unwrap(), true, hb, location, fuel);
                        },
                        (Some(_), None) => {
                            lemma_assign_grows(s, hb.root.unwrap(), false, ha, location, fuel);
                        },
                        (Some(ta), Some(tb)) => {
                            lemma_unify_terms_grows(s, ta, tb, location, fuel);
                            let (after, merged) = s.unify_terms(ta, tb, location, fuel);
                            match merged {
                                Ok(Some(m)) => {
                                    lemma_settle_grows(after, ha.root, hb.root, m);
                                    lemma_grows_transitive(
                                        s,
                                        after,
                                        after.settle(ha.root, hb.root, m).0,
                                    );
                                },
                                _ => {},
                            }
                        },
                    }
                }
            },
            _ => {},
        }
    }
}

/// Unifying two terms that are no variables takes nothing away.
pub proof fn lemma_unify_terms_grows(s: SolverV, ta: TyV, tb: TyV, location: Location, fuel: nat)
    ensures
        s.grows_into(s.unify_terms(ta, tb, location, fuel).0),
    decreases fuel, 0nat,
{
    lemma_grows_reflexive(s);
    let rest = (fuel - 1) as nat;
    if fuel == 0 {
    } else if ta is Uninitialized {
    } else if tb is Uninitialized {
    } else if ta is Any || tb is Any {
    } else if ta.is_basic() && ta == tb {
    } else {
        match (ta, tb) {
            (TyV::Array(x), TyV::Array(y)) => {
                lemma_unify_grows(s, *x, *y, location, rest);
            },
            (TyV::Record(r1), TyV::Record(r2)) => {
                if r1.refusal_from(r2, 0) is None {
                    lemma_merge_fields_grows(s, r1, r2.fields, 0, location, rest);
                }
            },
            (TyV::Func(f1), TyV::Func(f2)) => {
                if f1.parameters().len() == f2.parameters().len() {
                    lemma_unify_all_grows(
                        s,
                        f1.parameters(),
                        f2.parameters(),
                        Seq::empty(),
                        location,
                        rest,
                    );
                    let (after, parameters) = s.unify_all(
                        f1.parameters(),
                        f2.parameters(),
                        Seq::empty(),
                        location,
                        rest,
                    );
                    if parameters is Ok {
                        lemma_unify_grows(after, f1.return_type(), f2.return_type(), location, rest);
                        lemma_grows_transitive(
                            s,
                            after,
                            after.unify(f1.return_type(), f2.return_type(), location, rest).0,
                        );
                    }
                }
            },
            _ => {},
        }
    }
}

/// Unifying two lists place by place takes nothing away.
pub proof fn lemma_unify_all_grows(
    s: SolverV,
    xs: Seq<TyV>,
    ys: Seq<TyV>,
    done: Seq<TyV>,
    location: Location,
    fuel: nat,
)
    ensures
        s.grows_into(s.unify_all(xs, ys, done, location, fuel).0),
    decreases fuel, 2 + xs.len() - done.len(),
{
    lemma_grows_reflexive(s);
    if done.len() >= xs.len() || done.len() >= ys.len() {
    } else {
        let i = done.len() as int;
        lemma_unify_grows(s, xs[i], ys[i], location, fuel);
        let (after, one) = s.unify(xs[i], ys[i], location, fuel);
        if let Ok(rep) = one {
            lemma_unify_all_grows(after, xs, ys, done.push(rep), location, fuel);
            lemma_grows_transitive(
                s,
                after,
                after.unify_all(xs, ys, done.push(rep), location, fuel).0,
            );
        }
    }
}

/// Applying the fields of one record to another takes nothing away.
pub proof fn lemma_merge_fields_grows(
    s: SolverV,
    acc: RecordV,
    others: Seq<(Seq<char>, FieldV)>,
    i: nat,
    location: Location,
    fuel: nat,
)
    ensures
        s.grows_into(s.merge_fields(acc, others, i, location, fuel).0),
    decreases fuel, 2 + others.len() - i,
{
    lemma_grows_reflexive(s);
    if i < others.len() {
        let name = others[i as int].0;
        let (applied, op) = acc.apply_field(name, others[i as int].1);
        match op {
            Err(_) => {},
            Ok(FieldOpV::NewValue) => {
                lemma_merge_fields_grows(s, applied, others, i + 1, location, fuel);
            },
            Ok(FieldOpV::Unification { previous, new, .. }) => {
                lemma_unify_grows(s, previous, new, location, fuel);
                let (after, one) = s.unify(previous, new, location, fuel);
                if let Ok(rep) = one {
                    let next = applied.with_ty(applied.index_of(name), rep);
                    lemma_merge_fields_grows(after, next, others, i + 1, location, fuel);
                    lemma_grows_transitive(
                        s,
                        after,
                        after.merge_fields(next, others, i + 1, location, fuel).0,
                    );
                }
            },
        }
    }
}

} // verus!
