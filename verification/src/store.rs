//! The store: one mapping from text keys to byte-string values.

use vstd::hash_map::StringHashMap;
use vstd::prelude::*;

verus! {

/// The abstract content of a store.
pub type Contents = Map<Seq<char>, Seq<u8>>;

/// What a lookup of `key` in `contents` yields: the value, or the absent marker.
pub open spec fn lookup(contents: Contents, key: Seq<char>) -> Option<Seq<u8>> {
    if contents.contains_key(key) {
        Some(contents[key])
    } else {
        None
    }
}

/// The bytes of an optional value.
pub open spec fn value_view(value: Option<Vec<u8>>) -> Option<Seq<u8>> {
    match value {
        Some(bytes) => Some(bytes@),
        None => None,
    }
}

/// A mapping from key to value. Every key has at most one current value.
pub struct Store {
    entries: StringHashMap<Vec<u8>>,
}

impl View for Store {
    type V = Contents;

    closed spec fn view(&self) -> Contents {
        self.entries@.map_values(|value: Vec<u8>| value@)
    }
}

impl Store {
    /// A store without any key.
    pub fn new() -> (store: Store)
        ensures
            store@ == Contents::empty(),
    {
        let store = Store { entries: StringHashMap::new() };
        assert(store@ =~= Contents::empty());
        store
    }

    /// The value under `key`, or `None` where the key was never set.
    pub fn get(&self, key: &str) -> (found: Option<Vec<u8>>)
        ensures
            value_view(found) == lookup(self@, key@),
    {
        match self.entries.get(key) {
            Some(value) => Some(value.clone()),
            None => None,
        }
    }

    /// Puts `value` under `key`, in place of any value that was there.
    pub fn set(&mut self, key: String, value: Vec<u8>)
        ensures
            final(self)@ == old(self)@.insert(key@, value@),
    {
        self.entries.insert(key, value);
        assert(self@ =~= old(self)@.insert(key@, value@));
    }
}

} // verus!
