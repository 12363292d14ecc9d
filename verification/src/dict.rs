//! The name table behind frames, instances and modules.

use crate::object::PettyObject;
use vstd::prelude::*;

verus! {

/// A table from names to object handles, kept in a `hashbrown::HashMap`.
///
/// The table is opaque to the verifier: all that is known of it is its
/// contents, `dict_map`, and what the operations below say of them.
#[verifier::external_body]
pub struct Dict {
    map: hashbrown::HashMap<String, PettyObject>,
}

/// The contents of a table: which names it binds, and to which handles.
pub uninterp spec fn dict_map(d: Dict) -> Map<Seq<char>, PettyObject>;

impl View for Dict {
    type V = Map<Seq<char>, PettyObject>;

    open spec fn view(&self) -> Map<Seq<char>, PettyObject> {
        dict_map(*self)
    }
}

/// Calls `hashbrown::HashMap::new`: the new table binds no name.
#[verifier::external_body]
pub(crate) fn dict_new() -> (d: Dict)
    ensures
        dict_map(d) == (Map::<Seq<char>, PettyObject>::empty()),
{
    Dict { map: hashbrown::HashMap::new() }
}

/// Calls `hashbrown::HashMap::insert`: afterwards the table binds `key` to
/// `value` and every other name as before; the handle that `key` was bound
/// to before, if any, is returned.
#[verifier::external_body]
pub(crate) fn dict_insert(d: &mut Dict, key: String, value: PettyObject) -> (prev: Option<PettyObject>)
    ensures
        dict_map(*final(d)) == dict_map(*old(d)).insert(key@, value),
        prev == (if dict_map(*old(d)).contains_key(key@) {
            Some(dict_map(*old(d))[key@])
        } else {
            None
        }),
{
    d.map.insert(key, value)
}

/// Calls `hashbrown::HashMap::get`: the handle bound to `key`, if the table
/// binds it.
#[verifier::external_body]
pub(crate) fn dict_get(d: &Dict, key: &str) -> (r: Option<PettyObject>)
    ensures
        r == (if dict_map(*d).contains_key(key@) {
            Some(dict_map(*d)[key@])
        } else {
            None
        }),
{
    d.map.get(key).copied()
}

/// What a lookup of `key` in the contents `m` gives.
pub open spec fn map_get(m: Map<Seq<char>, PettyObject>, key: Seq<char>) -> Option<PettyObject> {
    if m.contains_key(key) {
        Some(m[key])
    } else {
        None
    }
}

impl Dict {
    /// A table that binds no name.
    pub fn new() -> (d: Dict)
        ensures
            d@ == (Map::<Seq<char>, PettyObject>::empty()),
    {
        dict_new()
    }

    /// Binds `key` to `value`, replacing an earlier binding of `key`.
    pub fn insert(&mut self, key: String, value: PettyObject)
        ensures
            final(self)@ == old(self)@.insert(key@, value),
    {
        let _ = dict_insert(self, key, value);
    }

    /// The handle bound to `key`, if any.
    pub fn get(&self, key: &str) -> (r: Option<PettyObject>)
        ensures
            r == map_get(self@, key@),
    {
        dict_get(self, key)
    }
}

/// Binds `key` to `value` in `dict`, whether or not `key` was bound before.
pub fn insert_ref(dict: &mut Dict, key: &String, value: PettyObject)
    ensures
        final(dict)@ == old(dict)@.insert(key@, value),
{
    dict.insert(key.clone(), value);
}

} // verus!
