//! A map from tile coordinates to values that remembers the order in which
//! its coordinates were first inserted.

use crate::coord::TileCoord;
use std::collections::HashMap;
use vstd::prelude::*;

verus! {

/// A map keyed by tile coordinate. Lookups go through a hash index; walking
/// the entries goes by the order of first insertion.
pub struct CoordMap<V> {
    keys: Vec<TileCoord>,
    values: Vec<V>,
    index: HashMap<u64, usize>,
}

impl<V> View for CoordMap<V> {
    type V = Map<TileCoord, V>;

    closed spec fn view(&self) -> Map<TileCoord, V> {
        Map::new(
            |coord: TileCoord| self.index@.contains_key(coord.key() as u64),
            |coord: TileCoord| self.values@[self.index@[coord.key() as u64] as int],
        )
    }
}

impl<V> CoordMap<V> {
    /// The index and the entries agree.
    pub closed spec fn wf(&self) -> bool {
        &&& self.keys@.len() == self.values@.len()
        &&& forall|i: int|
            0 <= i < self.keys@.len() ==> self.index@.contains_key(
                #[trigger] self.keys@[i].key() as u64,
            ) && self.index@[self.keys@[i].key() as u64] == i
        &&& forall|k: u64| #[trigger]
            self.index@.contains_key(k) ==> self.index@[k] < self.keys@.len()
                && self.keys@[self.index@[k] as int].key() == k
    }

    /// The entries in the order in which their coordinates were first inserted.
    pub closed spec fn entries(&self) -> Seq<(TileCoord, V)> {
        Seq::new(self.keys@.len(), |i: int| (self.keys@[i], self.values@[i]))
    }

    /// Where the entry of `coord` stands among the entries.
    pub closed spec fn position(&self, coord: TileCoord) -> int {
        self.index@[coord.key() as u64] as int
    }

    /// The entries hold every coordinate of the map once, with its value.
    pub proof fn lemma_entries(&self)
        requires
            self.wf(),
        ensures
            forall|i: int|
                0 <= i < self.entries().len() ==> self@.contains_key(
                    (#[trigger] self.entries()[i]).0,
                ) && self@[self.entries()[i].0] == self.entries()[i].1 && self.position(
                    self.entries()[i].0,
                ) == i,
            forall|coord: TileCoord| #[trigger]
                self@.contains_key(coord) ==> 0 <= self.position(coord) < self.entries().len()
                    && self.entries()[self.position(coord)] == (coord, self@[coord]),
            forall|i: int, j: int|
                0 <= i < j < self.entries().len() ==> (#[trigger] self.entries()[i]).0
                    != (#[trigger] self.entries()[j]).0,
            self@.dom().finite(),
            self@.dom().len() == self.entries().len(),
    {
        assert forall|coord: TileCoord| #[trigger] self@.contains_key(coord) implies 0
            <= self.position(coord) < self.entries().len() && self.entries()[self.position(coord)]
            == (coord, self@[coord]) by {
            let at = self.position(coord);
            TileCoord::lemma_key_faithful(self.keys@[at], coord);
        }
        let coords = self.keys@;
        assert forall|i: int, j: int| 0 <= i < coords.len() && 0 <= j < coords.len() && i
            != j implies coords[i] != coords[j] by {
            assert(self.index@[self.keys@[i].key() as u64] == i);
            assert(self.index@[self.keys@[j].key() as u64] == j);
        }
        assert(coords.to_set() =~= self@.dom()) by {
            assert forall|coord: TileCoord| coords.contains(coord) <==> self@.dom().contains(
                coord,
            ) by {
                if self@.dom().contains(coord) {
                    let at = self.position(coord);
                    TileCoord::lemma_key_faithful(self.keys@[at], coord);
                    assert(coords[at] == coord);
                }
            }
        }
        coords.unique_seq_to_set();
        vstd::seq_lib::seq_to_set_is_finite(coords);
    }

    /// A map without entries.
    pub fn new() -> (map: CoordMap<V>)
        ensures
            map.wf(),
            map@ == Map::<TileCoord, V>::empty(),
            map.entries() == Seq::<(TileCoord, V)>::empty(),
    {
        let map = CoordMap { keys: Vec::new(), values: Vec::new(), index: HashMap::new() };
        assert(map@ =~= Map::<TileCoord, V>::empty());
        assert(map.entries() =~= Seq::<(TileCoord, V)>::empty());
        map
    }

    /// The number of entries.
    pub fn len(&self) -> (len: usize)
        requires
            self.wf(),
        ensures
            len == self.entries().len(),
    {
        self.keys.len()
    }

    /// Whether the map holds a value for `coord`.
    pub fn contains_key(&self, coord: TileCoord) -> (held: bool)
        requires
            self.wf(),
        ensures
            held == self@.contains_key(coord),
    {
        self.index.contains_key(&coord.to_key())
    }

    /// The value at `coord`.
    pub fn get(&self, coord: TileCoord) -> (value: Option<&V>)
        requires
            self.wf(),
        ensures
            value == (if self@.contains_key(coord) {
                Some(&self@[coord])
            } else {
                None
            }),
    {
        match self.index.get(&coord.to_key()) {
            Some(at) => Some(&self.values[*at]),
            None => None,
        }
    }

    /// The entry at position `at` of the walk.
    pub fn entry(&self, at: usize) -> (entry: (TileCoord, &V))
        requires
            self.wf(),
            at < self.entries().len(),
        ensures
            entry.0 == self.entries()[at as int].0,
            *entry.1 == self.entries()[at as int].1,
    {
        (self.keys[at], &self.values[at])
    }

    /// Puts `value` at `coord`. A coordinate that is new to the map goes to
    /// the end of the walk; one that the map holds keeps its place.
    pub fn insert(&mut self, coord: TileCoord, value: V)
        requires
            old(self).wf(),
        ensures
            final(self).wf(),
            final(self)@ == old(self)@.insert(coord, value),
            final(self).entries() == (if old(self)@.contains_key(coord) {
                old(self).entries().update(old(self).position(coord), (coord, value))
            } else {
                old(self).entries().push((coord, value))
            }),
    {
        let key = coord.to_key();
        let found: Option<usize> = match self.index.get(&key) {
            Some(at) => Some(*at),
            None => None,
        };
        proof {
            assert forall|other: TileCoord| other.key() == coord.key() implies other == coord by {
                TileCoord::lemma_key_faithful(other, coord);
            }
        }
        match found {
            Some(at) => {
                proof {
                    TileCoord::lemma_key_faithful(self.keys@[at as int], coord);
                }
                self.values.set(at, value);
                proof {
                    assert forall|other: TileCoord| #[trigger]
                        self@.contains_key(other) && other != coord implies self@[other] == old(
                        self,
                    )@[other] by {
                        let p = self.index@[other.key() as u64] as int;
                        TileCoord::lemma_key_faithful(self.keys@[p], other);
                    }
                    assert(self@ =~= old(self)@.insert(coord, value));
                    assert(self.entries() =~= old(self).entries().update(
                        old(self).position(coord),
                        (coord, value),
                    ));
                }
            },
            None => {
                let at = self.keys.len();
                self.keys.push(coord);
                self.values.push(value);
                self.index.insert(key, at);
                proof {
                    assert forall|i: int| 0 <= i < self.keys@.len() implies self.index@.contains_key(
                        #[trigger] self.keys@[i].key() as u64,
                    ) && self.index@[self.keys@[i].key() as u64] == i by {
                        if i < at {
                            assert(old(self).index@.contains_key(old(self).keys@[i].key() as u64));
                        }
                    }
                    assert(self@ =~= old(self)@.insert(coord, value));
                    assert(self.entries() =~= old(self).entries().push((coord, value)));
                }
            },
        }
    }

    /// Replaces the value of the entry at position `at` of the walk.
    pub fn set_value(&mut self, at: usize, value: V)
        requires
            old(self).wf(),
            at < old(self).entries().len(),
        ensures
            final(self).wf(),
            final(self).entries() == old(self).entries().update(
                at as int,
                (old(self).entries()[at as int].0, value),
            ),
            final(self)@ == old(self)@.insert(old(self).entries()[at as int].0, value),
    {
        let ghost coord = self.keys@[at as int];
        self.values.set(at, value);
        proof {
            assert forall|other: TileCoord| #[trigger]
                self@.contains_key(other) && other != coord implies self@[other] == old(
                self,
            )@[other] by {
                let p = self.index@[other.key() as u64] as int;
                TileCoord::lemma_key_faithful(self.keys@[p], other);
            }
            assert(self@.contains_key(coord));
            assert(self@ =~= old(self)@.insert(coord, value));
            assert(self.entries() =~= old(self).entries().update(at as int, (coord, value)));
        }
    }
}

} // verus!
