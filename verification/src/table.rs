use vstd::prelude::*;
use crate::ty::{Ty, TyV, Var};

verus! {

/// The key under which the table files a variable.
pub type VarKey = (u8, u64, u64);

/// The substitution table: a hash map from variables to the terms they are bound to.
#[verifier::external_body]
pub struct Table {
    inner: hashbrown::HashMap<VarKey, Ty>,
}

/// What a table holds: the term stored under each key.
pub uninterp spec fn table_contents(table: Table) -> Map<VarKey, Ty>;

/// The contents of a table that holds nothing.
pub open spec fn no_bindings() -> Map<VarKey, Ty> {
    Map::empty()
}

/// `hashbrown::HashMap::new`: the map it creates is empty.
#[verifier::external_body]
pub(crate) fn table_new() -> (table: Table)
    ensures
        table_contents(table) == no_bindings(),
{
    Table { inner: hashbrown::HashMap::new() }
}

/// `hashbrown::HashMap::get`: a reference to the value stored under the key, if there is one.
#[verifier::external_body]
pub(crate) fn table_get(table: &Table, key: VarKey) -> (found: Option<&Ty>)
    ensures
        found.is_some() == table_contents(*table).contains_key(key),
        found.is_some() ==> *found.unwrap() == table_contents(*table)[key],
{
    table.inner.get(&key)
}

/// `hashbrown::HashMap::insert`: the value is stored under the key, in place of any value that
/// was there, and the other keys keep theirs; the value that was replaced is returned.
#[verifier::external_body]
pub(crate) fn table_insert(table: &mut Table, key: VarKey, ty: Ty) -> (previous: Option<Ty>)
    ensures
        table_contents(*final(table)) == table_contents(*old(table)).insert(key, ty),
        previous.is_some() == table_contents(*old(table)).contains_key(key),
        previous.is_some() ==> previous.unwrap() == table_contents(*old(table))[key],
{
    table.inner.insert(key, ty)
}

/// `hashbrown::HashMap::remove`: the key and its value leave the map, the other keys keep
/// theirs; the value that was removed is returned.
#[verifier::external_body]
pub(crate) fn table_remove(table: &mut Table, key: VarKey) -> (previous: Option<Ty>)
    ensures
        table_contents(*final(table)) == table_contents(*old(table)).remove(key),
        previous.is_some() == table_contents(*old(table)).contains_key(key),
        previous.is_some() ==> previous.unwrap() == table_contents(*old(table))[key],
{
    table.inner.remove(&key)
}

/// The key of a variable: distinct variables have distinct keys.
pub open spec fn key_of(var: Var) -> VarKey {
    match var {
        Var::Expr { frame, id } => (0u8, frame, id),
        Var::Fresh(n) => (1u8, n, 0u64),
        Var::Return => (2u8, 0u64, 0u64),
    }
}

/// The key of a variable.
pub fn var_key(var: Var) -> (key: VarKey)
    ensures
        key == key_of(var),
{
    match var {
        Var::Expr { frame, id } => (0u8, frame, id),
        Var::Fresh(n) => (1u8, n, 0u64),
        Var::Return => (2u8, 0u64, 0u64),
    }
}

/// Distinct variables have distinct keys.
pub proof fn lemma_key_injective(a: Var, b: Var)
    requires
        key_of(a) == key_of(b),
    ensures
        a == b,
{
}

/// The bindings of a table in which no variable is bound.
pub open spec fn unbound() -> Map<Var, TyV> {
    Map::empty()
}

impl Table {
    /// The bindings of the table: the mathematical value of the term bound to each variable.
    pub open spec fn bindings(self) -> Map<Var, TyV> {
        Map::new(
            |var: Var| table_contents(self).contains_key(key_of(var)),
            |var: Var| table_contents(self)[key_of(var)]@,
        )
    }

    /// A table without bindings.
    pub fn new() -> (table: Table)
        ensures
            table.bindings() == unbound(),
    {
        let table = table_new();
        assert(table.bindings() =~= unbound());
        table
    }

    /// A copy of the term that the variable is bound to.
    pub fn lookup(&self, var: Var) -> (found: Option<Ty>)
        ensures
            found.is_some() == self.bindings().contains_key(var),
            found.is_some() ==> found.unwrap()@ == self.bindings()[var],
    {
        match table_get(self, var_key(var)) {
            Some(ty) => Some(ty.duplicate()),
            None => None,
        }
    }

    /// Binds the variable to the term, in place of any earlier binding.
    pub fn bind(&mut self, var: Var, ty: Ty)
        ensures
            final(self).bindings() == old(self).bindings().insert(var, ty@),
    {
        let _ = table_insert(self, var_key(var), ty);
        assert(self.bindings() =~= old(self).bindings().insert(var, ty@)) by {
            assert forall|other: Var| #[trigger] key_of(other) == key_of(var) implies other == var by {
                lemma_key_injective(other, var);
            }
        }
    }

    /// Removes the binding of the variable and returns the term it was bound to.
    pub fn unbind(&mut self, var: Var) -> (previous: Option<Ty>)
        ensures
            final(self).bindings() == old(self).bindings().remove(var),
            previous.is_some() == old(self).bindings().contains_key(var),
            previous.is_some() ==> previous.unwrap()@ == old(self).bindings()[var],
    {
        let previous = table_remove(self, var_key(var));
        assert(self.bindings() =~= old(self).bindings().remove(var)) by {
            assert forall|other: Var| #[trigger] key_of(other) == key_of(var) implies other == var by {
                lemma_key_injective(other, var);
            }
        }
        previous
    }
}

} // verus!
