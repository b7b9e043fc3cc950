use vstd::prelude::*;
use crate::error::{TypeError, TypeErrorV};
use crate::location::Location;
use crate::ty::{Field, FieldV, Record, RecordOp, RecordV, State, Ty, TyV};

verus! {

/// What applying a field to a record asks of the solver.
#[must_use]
#[derive(Debug, PartialEq)]
pub enum FieldOp {
    /// The field was new, or filled a declared but unconstrained slot: nothing to unify.
    NewValue,
    /// The field exists: its type and the new one must be unified.
    Unification { previous: Ty, new: Ty, location: Location },
}

/// The mathematical value of a [`FieldOp`].
pub ghost enum FieldOpV {
    NewValue,
    Unification { previous: TyV, new: TyV, location: Location },
}

impl View for FieldOp {
    type V = FieldOpV;

    open spec fn view(&self) -> FieldOpV {
        match *self {
            FieldOp::NewValue => FieldOpV::NewValue,
            FieldOp::Unification { previous, new, location } => FieldOpV::Unification {
                previous: previous@,
                new: new@,
                location,
            },
        }
    }
}

impl State {
    /// How restrictive the state is: a record only ever moves to a higher rank.
    pub open spec fn rank(self) -> nat {
        match self {
            State::Inferred => 0,
            State::Extendable => 1,
            State::Concrete => 2,
        }
    }

    /// Whether a record in this state takes a field it lacks from an access of kind `op`.
    pub open spec fn admits(self, op: RecordOp) -> bool {
        match self {
            State::Inferred => true,
            State::Extendable => op == RecordOp::Write,
            State::Concrete => false,
        }
    }

    /// Whether a record in this state takes a field it lacks from an access of kind `op`.
    pub fn can_extend(self, op: RecordOp) -> (yes: bool)
        ensures
            yes == self.admits(op),
    {
        match self {
            State::Inferred => true,
            State::Extendable => match op {
                RecordOp::Write => true,
                RecordOp::Read => false,
            },
            State::Concrete => false,
        }
    }

    /// Whether this state is no more restrictive than `other`.
    pub fn at_most(self, other: State) -> (yes: bool)
        ensures
            yes == (self.rank() <= other.rank()),
    {
        match (self, other) {
            (State::Inferred, _) => true,
            (State::Extendable, State::Inferred) => false,
            (State::Extendable, _) => true,
            (State::Concrete, State::Concrete) => true,
            (State::Concrete, _) => false,
        }
    }

    /// The more restrictive of two states.
    pub open spec fn join(self, other: State) -> State {
        if self.rank() >= other.rank() {
            self
        } else {
            other
        }
    }

    /// The more restrictive of two states.
    pub fn stricter(self, other: State) -> (out: State)
        ensures
            out == self.join(other),
    {
        match (self, other) {
            (State::Concrete, _) => State::Concrete,
            (_, State::Concrete) => State::Concrete,
            (State::Extendable, _) => State::Extendable,
            (_, State::Extendable) => State::Extendable,
            (State::Inferred, State::Inferred) => State::Inferred,
        }
    }
}

impl Default for State {
    fn default() -> (state: State)
        ensures
            state == State::Concrete,
    {
        State::Concrete
    }
}

impl RecordV {
    /// Whether a field of that name exists.
    pub open spec fn contains(self, name: Seq<char>) -> bool {
        exists|i: int| 0 <= i < self.fields.len() && (#[trigger] self.fields[i]).0 == name
    }

    /// Whether `i` is the place of the first field of that name.
    pub open spec fn first_at(self, name: Seq<char>, i: int) -> bool {
        &&& 0 <= i < self.fields.len()
        &&& self.fields[i].0 == name
        &&& forall|j: int| 0 <= j < i ==> (#[trigger] self.fields[j]).0 != name
    }

    /// The place of the first field of that name, where one exists.
    pub open spec fn index_of(self, name: Seq<char>) -> int {
        choose|i: int| self.first_at(name, i)
    }

    /// The field of that name, where one exists.
    pub open spec fn field(self, name: Seq<char>) -> FieldV {
        self.fields[self.index_of(name)].1
    }

    /// Whether no name stands twice among the fields.
    pub open spec fn distinct(self) -> bool {
        forall|i: int, j: int|
            0 <= i < j < self.fields.len() ==> (#[trigger] self.fields[i]).0 != (
            #[trigger] self.fields[j]).0
    }

    /// The names of the fields.
    pub open spec fn names(self) -> Set<Seq<char>> {
        Set::new(|name: Seq<char>| self.contains(name))
    }

    /// Whether `other` holds every field that this record holds and is at least as closed.
    pub open spec fn within(self, other: RecordV) -> bool {
        &&& forall|name: Seq<char>| #[trigger] self.contains(name) ==> other.contains(name)
        &&& self.state.rank() <= other.state.rank()
    }

    /// The record with the type of the field at `i` replaced.
    pub open spec fn with_ty(self, i: int, ty: TyV) -> RecordV {
        RecordV {
            fields: self.fields.update(
                i,
                (self.fields[i].0, FieldV { ty, location: self.fields[i].1.location, op: self.fields[i].1.op }),
            ),
            state: self.state,
        }
    }

    /// The record with one more field at the end.
    pub open spec fn with_field(self, name: Seq<char>, field: FieldV) -> RecordV {
        RecordV { fields: self.fields.push((name, field)), state: self.state }
    }

    /// What applying a field does to the record, and what it asks of the solver.
    ///
    /// A field that exists keeps its place: an unconstrained slot takes the new type, any other
    /// type is to be unified with the new one. A field that the record lacks is added where the
    /// record's state admits the access, and refused otherwise.
    pub open spec fn apply_field(self, name: Seq<char>, field: FieldV) -> (RecordV, Result<FieldOpV, TypeErrorV>) {
        if self.contains(name) {
            let i = self.index_of(name);
            if self.fields[i].1.ty is Uninitialized {
                (self.with_ty(i, field.ty), Ok(FieldOpV::NewValue))
            } else {
                (
                    self,
                    Ok(
                        FieldOpV::Unification {
                            previous: self.fields[i].1.ty,
                            new: field.ty,
                            location: field.location,
                        },
                    ),
                )
            }
        } else if self.state.admits(field.op) {
            (self.with_field(name, field), Ok(FieldOpV::NewValue))
        } else {
            (
                self,
                Err(
                    TypeErrorV::IllegalExtension {
                        name,
                        state: self.state,
                        location: field.location,
                    },
                ),
            )
        }
    }
}

/// Applying a field puts no name into a record twice.
pub proof fn lemma_apply_field_keeps_distinct(r: RecordV, name: Seq<char>, field: FieldV)
    requires
        r.distinct(),
    ensures
        r.apply_field(name, field).0.distinct(),
{
    let after = r.apply_field(name, field).0;
    if r.contains(name) {
        lemma_contains_has_first(r, name);
        assert forall|i: int, j: int| 0 <= i < j < after.fields.len() implies (
        #[trigger] after.fields[i]).0 != (#[trigger] after.fields[j]).0 by {
            assert(after.fields[i].0 == r.fields[i].0);
            assert(after.fields[j].0 == r.fields[j].0);
        }
    } else if r.state.admits(field.op) {
        assert forall|i: int, j: int| 0 <= i < j < after.fields.len() implies (
        #[trigger] after.fields[i]).0 != (#[trigger] after.fields[j]).0 by {
            assert(after.fields[i] == r.fields[i]);
            if j < r.fields.len() {
                assert(after.fields[j] == r.fields[j]);
            }
        }
    }
}

/// The first field of a name is at one place only.
pub proof fn lemma_first_at_unique(r: RecordV, name: Seq<char>, i: int)
    requires
        r.first_at(name, i),
    ensures
        r.contains(name),
        r.index_of(name) == i,
{
    let k = r.index_of(name);
    assert(r.first_at(name, k));
    if k < i {
        assert(r.fields[k].0 != name);
    }
    if i < k {
        assert(r.fields[i].0 != name);
    }
}

/// A record that holds a name holds a first field of that name.
pub proof fn lemma_contains_has_first(r: RecordV, name: Seq<char>)
    requires
        r.contains(name),
    ensures
        r.first_at(name, r.index_of(name)),
{
    let w = choose|i: int| 0 <= i < r.fields.len() && (#[trigger] r.fields[i]).0 == name;
    lemma_first_below(r, name, w);
}

proof fn lemma_first_below(r: RecordV, name: Seq<char>, w: int)
    requires
        0 <= w < r.fields.len(),
        r.fields[w].0 == name,
    ensures
        exists|i: int| r.first_at(name, i),
    decreases w,
{
    if exists|j: int| 0 <= j < w && (#[trigger] r.fields[j]).0 == name {
        let j = choose|j: int| 0 <= j < w && (#[trigger] r.fields[j]).0 == name;
        lemma_first_below(r, name, j);
    } else {
        assert(r.first_at(name, w));
    }
}

impl Record {
    /// An empty record inferred from context.
    pub fn inferred() -> (record: Record)
        ensures
            record@ == (RecordV { fields: Seq::empty(), state: State::Inferred }),
            record@.distinct(),
    {
        let record = Record { fields: Vec::new(), state: State::Inferred };
        assert(record@.fields =~= Seq::empty());
        record
    }

    /// An empty record that grows when written to.
    pub fn extendable() -> (record: Record)
        ensures
            record@ == (RecordV { fields: Seq::empty(), state: State::Extendable }),
            record@.distinct(),
    {
        let record = Record { fields: Vec::new(), state: State::Extendable };
        assert(record@.fields =~= Seq::empty());
        record
    }

    /// The place of the first field of that name.
    pub fn find(&self, key: &str) -> (found: Option<usize>)
        ensures
            match found {
                Some(i) => self@.first_at(key@, i as int),
                None => !self@.contains(key@),
            },
            found.is_some() == self@.contains(key@),
            found.is_some() ==> found.unwrap() == self@.index_of(key@),
    {
        let name = key.to_owned();
        let mut i: usize = 0;
        while i < self.fields.len()
            invariant
                i <= self.fields.len(),
                name@ == key@,
                forall|j: int| 0 <= j < i ==> (#[trigger] self@.fields[j]).0 != key@,
            decreases self.fields.len() - i,
        {
            if self.fields[i].0 == name {
                proof {
                    assert(self@.fields[i as int].0 == key@);
                    lemma_first_at_unique(self@, key@, i as int);
                }
                return Some(i);
            }
            assert(self@.fields[i as int].0 != key@);
            i += 1;
        }
        None
    }

    /// Whether a field of that name exists.
    pub fn contains(&self, key: &str) -> (yes: bool)
        ensures
            yes == self@.contains(key@),
    {
        self.find(key).is_some()
    }

    /// The field of that name.
    pub fn get(&self, key: &str) -> (found: Option<&Field>)
        ensures
            found.is_some() == self@.contains(key@),
            found.is_some() ==> found.unwrap()@ == self@.field(key@),
    {
        match self.find(key) {
            Some(i) => Some(&self.fields[i].1),
            None => None,
        }
    }

    /// Whether `other` holds every field that this record holds and is at least as closed.
    pub fn within(&self, other: &Record) -> (yes: bool)
        ensures
            yes == self@.within(other@),
    {
        let mut i: usize = 0;
        while i < self.fields.len()
            invariant
                i <= self.fields.len(),
                forall|j: int| 0 <= j < i ==> other@.contains((#[trigger] self@.fields[j]).0),
            decreases self.fields.len() - i,
        {
            assert(self@.fields[i as int].0 == self.fields@[i as int].0@);
            if !other.contains(self.fields[i].0.as_str()) {
                assert(self@.contains(self@.fields[i as int].0));
                return false;
            }
            i += 1;
        }
        assert forall|name: Seq<char>| #[trigger] self@.contains(name) implies other@.contains(
            name,
        ) by {
            let at = choose|j: int| 0 <= j < self@.fields.len() && (#[trigger] self@.fields[j]).0 == name;
            assert(other@.contains(self@.fields[at].0));
        }
        self.state.at_most(other.state)
    }

    /// Moves the record to `state`, unless that would re-open it.
    pub fn set_state(&mut self, state: State)
        ensures
            final(self)@.fields == old(self)@.fields,
            final(self)@.state == old(self)@.state.join(state),
    {
        self.state = self.state.stricter(state);
    }

    /// Replaces the type of the first field of that name, where one exists.
    pub fn set_field_ty(&mut self, name: &str, ty: Ty)
        ensures
            final(self)@ == if old(self)@.contains(name@) {
                old(self)@.with_ty(old(self)@.index_of(name@), ty@)
            } else {
                old(self)@
            },
    {
        match self.find(name) {
            Some(i) => {
                let old_name = self.fields[i].0.clone();
                let location = self.fields[i].1.location;
                let op = self.fields[i].1.op;
                self.fields.set(i, (old_name, Field { ty, location, op }));
                assert(self@.fields =~= old(self)@.with_ty(i as int, ty@).fields);
            },
            None => {},
        }
    }

    /// Adds `field` under `name`, or reports what must be unified where the name exists.
    pub fn apply_field(&mut self, name: &str, field: Field) -> (out: Result<FieldOp, TypeError>)
        ensures
            final(self)@ == old(self)@.apply_field(name@, field@).0,
            old(self)@.distinct() ==> final(self)@.distinct(),
            match out {
                Ok(op) => Ok::<FieldOpV, TypeErrorV>(op@) == old(self)@.apply_field(name@, field@).1,
                Err(e) => Err::<FieldOpV, TypeErrorV>(e@) == old(self)@.apply_field(name@, field@).1,
            },
    {
        proof {
            if self@.distinct() {
                lemma_apply_field_keeps_distinct(self@, name@, field@);
            }
        }
        match self.find(name) {
            Some(i) => {
                let uninitialized = match &self.fields[i].1.ty {
                    Ty::Uninitialized => true,
                    _ => false,
                };
                if uninitialized {
                    let old_name = self.fields[i].0.clone();
                    let location = self.fields[i].1.location;
                    let op = self.fields[i].1.op;
                    self.fields.set(i, (old_name, Field { ty: field.ty, location, op }));
                    assert(self@.fields =~= old(self)@.with_ty(i as int, field@.ty).fields);
                    Ok(FieldOp::NewValue)
                } else {
                    Ok(
                        FieldOp::Unification {
                            previous: self.fields[i].1.ty.duplicate(),
                            new: field.ty,
                            location: field.location,
                        },
                    )
                }
            },
            None => {
                if self.state.can_extend(field.op) {
                    let ghost before = self@;
                    let ghost added = field@;
                    self.fields.push((name.to_owned(), field));
                    assert(self@.fields =~= before.with_field(name@, added).fields);
                    Ok(FieldOp::NewValue)
                } else {
                    Err(
                        TypeError::IllegalExtension {
                            name: name.to_owned(),
                            state: self.state,
                            location: field.location,
                        },
                    )
                }
            },
        }
    }
}

} // verus!
