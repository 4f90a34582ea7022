//! The runtime data of a tile, as far as a frame reads it.

use crate::coord::TileCoord;
use crate::id::{Id, IdMap};
use vstd::prelude::*;

verus! {

/// One value of a tile's data.
#[derive(Clone, Copy, Debug, PartialEq, Eq, Structural)]
pub enum Data {
    Coord(TileCoord),
    Id(Id),
    Amount(u32),
    Bool(bool),
}

impl Data {
    /// The coordinate, if the value is one.
    pub open spec fn coord(self) -> Option<TileCoord> {
        match self {
            Data::Coord(coord) => Some(coord),
            _ => None,
        }
    }

    /// The identifier, if the value is one.
    pub open spec fn id(self) -> Option<Id> {
        match self {
            Data::Id(id) => Some(id),
            _ => None,
        }
    }

    pub fn as_coord(&self) -> (coord: Option<TileCoord>)
        ensures
            coord == self.coord(),
    {
        match self {
            Data::Coord(coord) => Some(*coord),
            _ => None,
        }
    }

    pub fn as_id(&self) -> (id: Option<Id>)
        ensures
            id == self.id(),
    {
        match self {
            Data::Id(id) => Some(*id),
            _ => None,
        }
    }

    pub fn as_amount(&self) -> (amount: Option<u32>)
        ensures
            amount == (match *self {
                Data::Amount(amount) => Some(amount),
                _ => None,
            }),
    {
        match self {
            Data::Amount(amount) => Some(*amount),
            _ => None,
        }
    }

    pub fn as_bool(&self) -> (flag: Option<bool>)
        ensures
            flag == (match *self {
                Data::Bool(flag) => Some(flag),
                _ => None,
            }),
    {
        match self {
            Data::Bool(flag) => Some(*flag),
            _ => None,
        }
    }
}

/// The data of one tile, by key.
pub type DataMap = IdMap<Data>;

} // verus!
