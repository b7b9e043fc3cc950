use vstd::prelude::*;
use crate::error::{TypeError, TypeErrorV};
use crate::location::Location;
use crate::record::{FieldOp, FieldOpV, lemma_apply_field_keeps_distinct};
use crate::solver::{Solver, SolverV, empty_record};
use crate::ty::{Field, FieldV, Record, RecordV, State, Ty, TyV, Var, fields_view};
use crate::unify::{record_outcome_view, unit_view};

verus! {

/// A record reached through a variable: the variable at the end of the chain, and the record.
pub ghost struct Reached {
    pub root: Var,
    pub record: RecordV,
}

impl SolverV {
    /// The state after minting a variable and binding it to an empty record.
    pub open spec fn with_new_scope(self) -> SolverV {
        self.minted().rebind(Var::Fresh(self.next_var), TyV::Record(empty_record()))
    }

    /// The record that a variable stands for: the one bound at the end of its chain, or an
    /// empty record where nothing is bound there. `None` where another term is bound there or
    /// the chain runs in a cycle.
    pub open spec fn record_at(self, var: Var) -> Option<Reached> {
        match self.head(TyV::Var(var)) {
            Some(h) => match h.term {
                Some(TyV::Record(record)) => Some(Reached { root: h.root.unwrap(), record }),
                None => Some(Reached { root: h.root.unwrap(), record: empty_record() }),
                _ => None,
            },
            None => None,
        }
    }

    /// Whether the record that the variable stands for holds a field of that name.
    pub open spec fn scope_contains(self, var: Var, name: Seq<char>) -> bool {
        match self.record_at(var) {
            Some(reached) => reached.record.contains(name),
            None => false,
        }
    }

    /// Applies a field to the record that `scope` stands for and commits what that asks.
    pub open spec fn apply_at(self, scope: Var, name: Seq<char>, field: FieldV) -> (
        SolverV,
        Result<(), TypeErrorV>,
    ) {
        match self.head(TyV::Var(scope)) {
            None => (self, Err(TypeErrorV::LimitExceeded(field.location))),
            Some(h) => match h.term {
                Some(TyV::Record(record)) => self.apply_to(h.root.unwrap(), record, name, field),
                None => self.apply_to(h.root.unwrap(), empty_record(), name, field),
                Some(other) => (
                    self,
                    Err(
                        TypeErrorV::Mismatch(other, TyV::Record(empty_record()), field.location),
                    ),
                ),
            },
        }
    }

    /// Applies a field to `record`, stores the record under `root`, and commits what the
    /// application asks.
    pub open spec fn apply_to(self, root: Var, record: RecordV, name: Seq<char>, field: FieldV) -> (
        SolverV,
        Result<(), TypeErrorV>,
    ) {
        let (applied, op) = record.apply_field(name, field);
        match op {
            Err(e) => (self, Err(e)),
            Ok(op) => self.rebind(root, TyV::Record(applied)).commit(op),
        }
    }

    /// Commits what the application of a field asks.
    pub open spec fn commit(self, op: FieldOpV) -> (SolverV, Result<(), TypeErrorV>) {
        match op {
            FieldOpV::NewValue => (self, Ok(())),
            FieldOpV::Unification { previous, new, location } => self.unify_tys(
                previous,
                new,
                location,
            ),
        }
    }

    /// Unifies two terms as deep as the solver goes.
    pub open spec fn unify_tys(self, a: TyV, b: TyV, location: Location) -> (
        SolverV,
        Result<(), TypeErrorV>,
    ) {
        let (after, out) = self.unify(a, b, location, self.depth_limit as nat);
        (
            after,
            match out {
                Ok(_) => Ok(()),
                Err(e) => Err(e),
            },
        )
    }

    /// Applies a field to the global scope and commits what that asks.
    pub open spec fn apply_global(self, name: Seq<char>, field: FieldV) -> (
        SolverV,
        Result<(), TypeErrorV>,
    ) {
        let (applied, op) = self.globals.apply_field(name, field);
        match op {
            Err(e) => (self, Err(e)),
            Ok(op) => self.with_globals(applied).commit(op),
        }
    }

    /// Applies the fields of a list from the place `i` on to `record` and commits what each
    /// asks; the record that comes of it is closed.
    pub open spec fn build_concrete(
        self,
        record: RecordV,
        fields: Seq<(Seq<char>, FieldV)>,
        i: nat,
    ) -> (SolverV, Result<RecordV, TypeErrorV>)
        decreases fields.len() - i,
    {
        if i >= fields.len() {
            (self, Ok(RecordV { fields: record.fields, state: State::Concrete }))
        } else {
            let (applied, op) = record.apply_field(fields[i as int].0, fields[i as int].1);
            match op {
                Err(e) => (self, Err(e)),
                Ok(op) => {
                    let (committed, out) = self.commit(op);
                    match out {
                        Err(e) => (committed, Err(e)),
                        Ok(()) => committed.build_concrete(applied, fields, i + 1),
                    }
                },
            }
        }
    }

    /// Closes the record that the variable stands for, where it stands for one.
    pub open spec fn seal(self, var: Var) -> SolverV {
        match self.head(TyV::Var(var)) {
            Some(h) => match h.term {
                Some(TyV::Record(record)) => self.rebind(
                    h.root.unwrap(),
                    TyV::Record(RecordV { fields: record.fields, state: State::Concrete }),
                ),
                _ => self,
            },
            None => self,
        }
    }
}

impl<'a> Solver<'a> {
    /// Opens a local scope: an empty record under a new variable, which is returned.
    pub fn enter_new_local_scope(&mut self) -> (scope: Option<Var>)
        ensures
            match scope {
                Some(var) => old(self)@.can_mint() && var == Var::Fresh(old(self)@.next_var)
                    && final(self)@ == old(self)@.with_new_scope().push_local(var),
                None => !old(self)@.can_mint() && final(self)@ == old(self)@,
            },
    {
        match self.fresh_var() {
            Some(var) => {
                self.rebind(var, Ty::Record(Record::inferred()));
                self.enter_local_scope(var);
                Some(var)
            },
            None => None,
        }
    }

    /// Opens a self scope: an empty record under a new variable, which is returned.
    pub fn enter_new_self_scope(&mut self) -> (scope: Option<Var>)
        ensures
            match scope {
                Some(var) => old(self)@.can_mint() && var == Var::Fresh(old(self)@.next_var)
                    && final(self)@ == old(self)@.with_new_scope().push_self(var),
                None => !old(self)@.can_mint() && final(self)@ == old(self)@,
            },
    {
        match self.fresh_var() {
            Some(var) => {
                self.rebind(var, Ty::Record(Record::inferred()));
                self.enter_self_scope(var);
                Some(var)
            },
            None => None,
        }
    }

    /// A copy of the record that the variable stands for, with the variable at the end of the
    /// chain.
    pub fn record_at(&self, var: Var) -> (found: Option<(Var, Record)>)
        ensures
            match found {
                Some((root, record)) => self@.record_at(var) == Some(
                    Reached { root, record: record@ },
                ),
                None => self@.record_at(var).is_none(),
            },
    {
        match self.head(&Ty::Var(var)) {
            Some(h) => match h.term {
                Some(Ty::Record(record)) => Some((h.root.unwrap(), record)),
                None => Some((h.root.unwrap(), Record::inferred())),
                _ => None,
            },
            None => None,
        }
    }

    /// A copy of the local scope in use.
    pub fn local_scope(&self) -> (found: Option<Record>)
        ensures
            match found {
                Some(record) => self@.record_at(self@.local_var()).is_some() && record@
                    == self@.record_at(self@.local_var()).unwrap().record,
                None => self@.record_at(self@.local_var()).is_none(),
            },
    {
        match self.record_at(self.local_var()) {
            Some((_, record)) => Some(record),
            None => None,
        }
    }

    /// A copy of the self scope in use.
    pub fn self_scope(&self) -> (found: Option<Record>)
        ensures
            match found {
                Some(record) => self@.record_at(self@.self_var()).is_some() && record@
                    == self@.record_at(self@.self_var()).unwrap().record,
                None => self@.record_at(self@.self_var()).is_none(),
            },
    {
        match self.record_at(self.current_self_var()) {
            Some((_, record)) => Some(record),
            None => None,
        }
    }

    /// Whether the record that the variable stands for holds a field of that name.
    pub fn scope_contains(&self, var: Var, name: &str) -> (yes: bool)
        ensures
            yes == self@.scope_contains(var, name@),
    {
        match self.record_at(var) {
            Some((_, record)) => record.contains(name),
            None => false,
        }
    }

    /// Unifies two terms as deep as the solver goes.
    pub fn unify_tys(&mut self, lhs: &Ty, rhs: &Ty, location: Location) -> (out: Result<(), TypeError>)
        ensures
            (final(self)@, unit_view(out)) == old(self)@.unify_tys(lhs@, rhs@, location),
    {
        let fuel = self.depth_limit();
        match self.unify(lhs, rhs, location, fuel) {
            Ok(_) => Ok(()),
            Err(e) => Err(e),
        }
    }

    /// Unifies a variable with a term as deep as the solver goes.
    pub fn unify_var(&mut self, var: &Var, ty: &Ty, location: Location) -> (out: Result<(), TypeError>)
        ensures
            (final(self)@, unit_view(out)) == old(self)@.unify_tys(TyV::Var(*var), ty@, location),
    {
        self.unify_tys(&Ty::Var(*var), ty, location)
    }

    /// Commits what the application of a field asks.
    pub fn commit(&mut self, op: FieldOp) -> (out: Result<(), TypeError>)
        ensures
            (final(self)@, unit_view(out)) == old(self)@.commit(op@),
    {
        match op {
            FieldOp::NewValue => Ok(()),
            FieldOp::Unification { previous, new, location } => self.unify_tys(
                &previous,
                &new,
                location,
            ),
        }
    }

    /// Applies a field to the record that `scope` stands for and commits what that asks.
    pub fn apply_at(&mut self, scope: Var, name: &str, field: Field) -> (out: Result<(), TypeError>)
        ensures
            (final(self)@, unit_view(out)) == old(self)@.apply_at(scope, name@, field@),
    {
        let location = field.location;
        match self.head(&Ty::Var(scope)) {
            None => Err(TypeError::LimitExceeded(location)),
            Some(h) => {
                let root = h.root.unwrap();
                let mut record = match h.term {
                    Some(Ty::Record(record)) => record,
                    None => Record::inferred(),
                    Some(other) => {
                        return Err(
                            TypeError::Mismatch(other, Ty::Record(Record::inferred()), location),
                        );
                    },
                };
                match record.apply_field(name, field) {
                    Err(e) => Err(e),
                    Ok(op) => {
                        self.rebind(root, Ty::Record(record));
                        self.commit(op)
                    },
                }
            },
        }
    }

    /// Applies a field to the global scope and commits what that asks.
    pub fn apply_global(&mut self, name: &str, field: Field) -> (out: Result<(), TypeError>)
        ensures
            (final(self)@, unit_view(out)) == old(self)@.apply_global(name@, field@),
    {
        let mut globals = self.global_scope();
        match globals.apply_field(name, field) {
            Err(e) => Err(e),
            Ok(op) => {
                self.set_global_scope(globals);
                self.commit(op)
            },
        }
    }

    /// Closes the record that the variable stands for, where it stands for one.
    pub fn seal(&mut self, var: Var)
        ensures
            final(self)@ == old(self)@.seal(var),
    {
        match self.head(&Ty::Var(var)) {
            Some(h) => match h.term {
                Some(Ty::Record(record)) => {
                    self.rebind(
                        h.root.unwrap(),
                        Ty::Record(Record { fields: record.fields, state: State::Concrete }),
                    );
                },
                _ => {},
            },
            None => {},
        }
    }
}

impl Record {
    /// A closed record of the given fields. Fields of one name are unified with each other.
    pub fn concrete(fields: Vec<(String, Field)>, solver: &mut Solver) -> (out: Result<
        Record,
        TypeError,
    >)
        ensures
            (final(solver)@, record_outcome_view(out)) == old(solver)@.build_concrete(
                RecordV { fields: Seq::empty(), state: State::Extendable },
                fields_view(fields@),
                0,
            ),
            out matches Ok(record) ==> record@.state == State::Concrete && record@.distinct(),
    {
        let mut record = Record::extendable();
        let mut i: usize = 0;
        while i < fields.len()
            invariant
                i <= fields.len(),
                record@.state == State::Extendable,
                record@.distinct(),
                solver@.build_concrete(record@, fields_view(fields@), i as nat) == old(
                    solver,
                )@.build_concrete(
                    RecordV { fields: Seq::empty(), state: State::Extendable },
                    fields_view(fields@),
                    0,
                ),
            decreases fields.len() - i,
        {
            let entry = &fields[i];
            assert(fields_view(fields@)[i as int] == (entry.0@, entry.1@));
            let op = record.apply_field(entry.0.as_str(), entry.1.duplicate())?;
            solver.commit(op)?;
            i += 1;
        }
        proof {
            lemma_concrete_closes(solver@, record@, fields_view(fields@), i as nat);
        }
        Ok(Record { fields: record.fields, state: State::Concrete })
    }
}

/// The record that comes of building a closed record is closed, and holds no name twice
/// where the record it is built on holds none twice.
pub proof fn lemma_concrete_closes(s: SolverV, record: RecordV, fields: Seq<(Seq<char>, FieldV)>, i: nat)
    ensures
        s.build_concrete(record, fields, i).1 matches Ok(built) ==> built.state == State::Concrete
            && (record.distinct() ==> built.distinct()),
    decreases fields.len() - i,
{
    if i < fields.len() {
        let (applied, op) = record.apply_field(fields[i as int].0, fields[i as int].1);
        if record.distinct() {
            lemma_apply_field_keeps_distinct(record, fields[i as int].0, fields[i as int].1);
        }
        if let Ok(op) = op {
            let (committed, out) = s.commit(op);
            if out is Ok {
                lemma_concrete_closes(committed, applied, fields, i + 1);
            }
        }
    }
}

/// A closed record of the given fields as they come. Where a name stands twice, the first
/// field of the name is the one that is found under it.
impl From<Vec<(String, Field)>> for Record {
    fn from(fields: Vec<(String, Field)>) -> (record: Record) {
        Record { fields, state: State::Concrete }
    }
}

impl vstd::std_specs::convert::FromSpecImpl<Vec<(String, Field)>> for Record {
    open spec fn obeys_from_spec() -> bool {
        true
    }

    open spec fn from_spec(fields: Vec<(String, Field)>) -> Record {
        Record { fields, state: State::Concrete }
    }
}

impl FieldOp {
    /// Hands what the application of a field asks to the solver.
    pub fn commit(self, solver: &mut Solver) -> (out: Result<(), TypeError>)
        ensures
            (final(solver)@, unit_view(out)) == old(solver)@.commit(self@),
    {
        solver.commit(self)
    }
}

} // verus!
