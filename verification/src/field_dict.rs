//! An environment of plain frames: a global table and a stack of local
//! tables that nothing else shares.

use crate::dict::{map_get, Dict};
use crate::error::RuntimeError;
use crate::object::PettyObject;
use vstd::prelude::*;

verus! {

/// A global table and a stack of local tables, innermost last.
pub struct FieldDict {
    globals: Dict,
    scopes: Vec<Dict>,
}

/// The contents of a stack of tables.
pub open spec fn tables(scopes: Seq<Dict>) -> Seq<Map<Seq<char>, PettyObject>> {
    scopes.map_values(|d: Dict| d@)
}

/// What `key` is bound to in the innermost of the first `n` tables that
/// binds it.
pub open spec fn read_tables(
    scopes: Seq<Map<Seq<char>, PettyObject>>,
    key: Seq<char>,
    n: nat,
) -> Option<PettyObject>
    decreases n,
{
    if n == 0 || n > scopes.len() {
        None
    } else if scopes[n - 1].contains_key(key) {
        Some(scopes[n - 1][key])
    } else {
        read_tables(scopes, key, (n - 1) as nat)
    }
}

impl FieldDict {
    /// The contents of the global table.
    pub closed spec fn globals(&self) -> Map<Seq<char>, PettyObject> {
        self.globals@
    }

    /// The contents of the local tables, outermost first.
    pub closed spec fn scopes(&self) -> Seq<Map<Seq<char>, PettyObject>> {
        tables(self.scopes@)
    }

    /// What a name is bound to: the local tables are searched from the
    /// innermost to the outermost, then the global table.
    pub open spec fn lookup(&self, key: Seq<char>) -> Option<PettyObject> {
        match read_tables(self.scopes(), key, self.scopes().len()) {
            Some(o) => Some(o),
            None => map_get(self.globals(), key),
        }
    }

    /// An environment with an empty global table and no local table.
    pub fn new() -> (d: Self)
        ensures
            d.globals() == (Map::<Seq<char>, PettyObject>::empty()),
            d.scopes() == (Seq::<Map<Seq<char>, PettyObject>>::empty()),
    {
        let d = FieldDict { globals: Dict::new(), scopes: Vec::new() };
        assert(d.scopes() =~= Seq::<Map<Seq<char>, PettyObject>>::empty());
        d
    }

    /// Binds a name in the innermost local table if there is one, else in
    /// the global table.
    pub fn write(&mut self, str: String, value: PettyObject)
        ensures
            old(self).scopes().len() > 0 ==> final(self).globals() == old(self).globals()
                && final(self).scopes() == old(self).scopes().update(
                old(self).scopes().len() - 1,
                old(self).scopes().last().insert(str@, value),
            ),
            old(self).scopes().len() == 0 ==> final(self).scopes() == old(self).scopes()
                && final(self).globals() == old(self).globals().insert(str@, value),
            final(self).lookup(str@) == Some(value),
    {
        let n = self.scopes.len();
        if n > 0 {
            self.scopes[n - 1].insert(str, value);
            assert(self.scopes() =~= old(self).scopes().update(
                n - 1,
                old(self).scopes().last().insert(str@, value),
            ));
        } else {
            self.globals.insert(str, value);
            assert(self.scopes() =~= old(self).scopes());
        }
    }

    /// What a name is bound to; a name that is bound nowhere is an error.
    pub fn read(&self, str: &str) -> (r: Result<PettyObject, RuntimeError>)
        ensures
            r == match self.lookup(str@) {
                Some(o) => Ok::<PettyObject, RuntimeError>(o),
                None => Err::<PettyObject, RuntimeError>(RuntimeError::UnresolvedName),
            },
    {
        let mut n: usize = self.scopes.len();
        while n > 0
            invariant
                n <= self.scopes@.len(),
                self.scopes().len() == self.scopes@.len(),
                read_tables(self.scopes(), str@, self.scopes().len()) == read_tables(
                    self.scopes(),
                    str@,
                    n as nat,
                ),
            decreases n,
        {
            assert(self.scopes()[n - 1] == self.scopes@[n - 1]@);
            match self.scopes[n - 1].get(str) {
                Some(o) => {
                    return Ok(o);
                },
                None => {},
            }
            n -= 1;
        }
        match self.globals.get(str) {
            Some(o) => Ok(o),
            None => Err(RuntimeError::UnresolvedName),
        }
    }

    /// Pushes an empty local table.
    pub fn new_scope(&mut self)
        ensures
            final(self).globals() == old(self).globals(),
            final(self).scopes() == old(self).scopes().push(Map::empty()),
    {
        self.scopes.push(Dict::new());
        assert(self.scopes() =~= old(self).scopes().push(Map::empty()));
    }

    /// Pops the innermost local table, if there is one.
    pub fn drop_scope(&mut self)
        ensures
            final(self).globals() == old(self).globals(),
            old(self).scopes().len() > 0 ==> final(self).scopes() == old(self).scopes().drop_last(),
            old(self).scopes().len() == 0 ==> final(self).scopes() == old(self).scopes(),
    {
        let _ = self.scopes.pop();
        assert(old(self).scopes().len() > 0 ==> self.scopes() =~= old(self).scopes().drop_last());
        assert(old(self).scopes().len() == 0 ==> self.scopes() =~= old(self).scopes());
    }
}

/// Shadowing in an environment of plain frames: a name bound in a fresh
/// table reads as the new object while the table is there, and every name
/// reads as before once the table is popped.
pub proof fn law_plain_shadowing(
    globals: Map<Seq<char>, PettyObject>,
    scopes: Seq<Map<Seq<char>, PettyObject>>,
    key: Seq<char>,
    value: PettyObject,
    other: Seq<char>,
)
    ensures
        read_tables(
            scopes.push(Map::<Seq<char>, PettyObject>::empty().insert(key, value)),
            key,
            scopes.len() + 1,
        ) == Some(value),
        scopes.push(Map::<Seq<char>, PettyObject>::empty().insert(key, value)).drop_last()
            == scopes,
{
    let pushed = scopes.push(Map::<Seq<char>, PettyObject>::empty().insert(key, value));
    assert(pushed[scopes.len() as int].contains_key(key));
    assert(pushed.drop_last() =~= scopes);
}

} // verus!
