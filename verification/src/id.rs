//! Identifiers of registered resources, and maps keyed by them.

use std::collections::HashMap;
use vstd::prelude::*;

verus! {

/// The identifier of a registered resource: a tile, a model, an item or a
/// data key.
#[derive(Clone, Copy, Debug, PartialEq, Eq, Hash, PartialOrd, Ord, Structural)]
pub struct Id(pub usize);

impl Id {
    /// The number behind the identifier.
    pub fn raw(&self) -> (n: usize)
        ensures
            n == self.0,
    {
        self.0
    }
}

/// The value that a map holds under a key, if it holds one.
pub open spec fn lookup<K, V>(map: Map<K, V>, key: K) -> Option<V> {
    if map.contains_key(key) {
        Some(map[key])
    } else {
        None
    }
}

/// A map keyed by identifier.
pub struct IdMap<V> {
    values: HashMap<usize, V>,
}

impl<V> View for IdMap<V> {
    type V = Map<Id, V>;

    closed spec fn view(&self) -> Map<Id, V> {
        Map::new(|id: Id| self.values@.contains_key(id.0), |id: Id| self.values@[id.0])
    }
}

impl<V> IdMap<V> {
    /// A map without entries.
    pub fn new() -> (map: IdMap<V>)
        ensures
            map@ == Map::<Id, V>::empty(),
    {
        let map = IdMap { values: HashMap::new() };
        assert(map@ =~= Map::<Id, V>::empty());
        map
    }

    /// Puts `value` under `id`, in place of what was there.
    pub fn insert(&mut self, id: Id, value: V)
        ensures
            final(self)@ == old(self)@.insert(id, value),
    {
        self.values.insert(id.0, value);
        assert(self@ =~= old(self)@.insert(id, value));
    }

    /// The value under `id`.
    pub fn get(&self, id: Id) -> (value: Option<&V>)
        ensures
            value == (match lookup(self@, id) {
                Some(held) => Some(&held),
                None => None,
            }),
    {
        self.values.get(&id.0)
    }

    /// Whether the map holds a value under `id`.
    pub fn contains_key(&self, id: Id) -> (held: bool)
        ensures
            held == self@.contains_key(id),
    {
        self.values.contains_key(&id.0)
    }
}

} // verus!
