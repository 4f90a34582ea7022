//! What is registered: the tiles and items with their models, the index
//! ranges of the models, the written names and the texts.

use crate::batch::GeometryCache;
use crate::data::{Data, DataMap};
use crate::id::{lookup, Id, IdMap};
use crate::translate::{Interner, Translate};
use vstd::prelude::*;

verus! {

/// The keys of the tile data that a frame reads.
#[derive(Clone, Copy, Debug, PartialEq, Eq, Structural)]
pub struct DataIds {
    /// Under this key a tile holds the direction that it faces.
    pub target: Id,
    /// Under this key a tile holds the coordinate that it is linked to.
    pub link: Id,
    /// Under this key a kind of tile holds the model of its inactive state.
    pub inactive_model: Id,
}

/// The models that the renderer itself asks for.
#[derive(Clone, Copy, Debug, PartialEq, Eq, Structural)]
pub struct ModelIds {
    /// A cube of one by one, which is stretched into lines.
    pub cube1x1: Id,
    /// Drawn in place of a model that is not known.
    pub missing: Id,
    /// Drawn in place of the model of an item that is not known.
    pub items_missing: Id,
}

/// A kind of tile.
pub struct Tile {
    /// The models of the kind; the first is the one it is drawn with.
    pub models: Vec<Id>,
    /// The data of the kind.
    pub data: DataMap,
}

/// A kind of item.
#[derive(Clone, Copy, Debug, PartialEq, Eq, Structural)]
pub struct Item {
    /// The model that the item is shown with.
    pub model: Id,
}

/// The registered kinds of tiles and items.
pub struct Registry {
    /// The kind of tile that stands where there is no tile.
    pub none: Id,
    pub data_ids: DataIds,
    pub model_ids: ModelIds,
    pub tiles: IdMap<Tile>,
    pub items: IdMap<Item>,
}

impl Registry {
    /// The value under `key` in the data of the kind of tile `tile`.
    pub open spec fn tile_data_of(&self, tile: Id, key: Id) -> Option<Data> {
        match lookup(self.tiles@, tile) {
            Some(kind) => lookup(kind.data@, key),
            None => None,
        }
    }

    /// The model that stands where there is no tile: the first model of the
    /// kind `none`.
    pub open spec fn none_model_of(&self) -> Option<Id> {
        match lookup(self.tiles@, self.none) {
            Some(kind) => if kind.models@.len() > 0 {
                Some(kind.models@[0])
            } else {
                None
            },
            None => None,
        }
    }

    /// The kind of tile `id`.
    pub fn tile(&self, id: Id) -> (kind: Option<&Tile>)
        ensures
            kind == (match lookup(self.tiles@, id) {
                Some(held) => Some(&held),
                None => None,
            }),
    {
        self.tiles.get(id)
    }

    /// Computes [`Registry::tile_data_of`].
    pub fn tile_data(&self, tile: Id, key: Id) -> (value: Option<Data>)
        ensures
            value == self.tile_data_of(tile, key),
    {
        match self.tiles.get(tile) {
            Some(kind) => match kind.data.get(key) {
                Some(value) => Some(*value),
                None => None,
            },
            None => None,
        }
    }

    /// Computes [`Registry::none_model_of`].
    pub fn none_model(&self) -> (model: Option<Id>)
        ensures
            model == self.none_model_of(),
    {
        match self.tiles.get(self.none) {
            Some(kind) => if kind.models.len() > 0 {
                Some(kind.models[0])
            } else {
                None
            },
            None => None,
        }
    }
}

/// All that is registered.
pub struct ResourceManager {
    pub registry: Registry,
    pub index_ranges: GeometryCache,
    pub interner: Interner,
    pub translates: Translate,
}

impl ResourceManager {
    /// The model to draw for `model`: itself where its indices are known,
    /// else the model that marks a missing one.
    pub open spec fn model_of(&self, model: Id) -> Id {
        if self.index_ranges@.contains_key(model) {
            model
        } else {
            self.registry.model_ids.missing
        }
    }

    /// The model to draw for the item `item`: the item's own where the item
    /// is registered and the indices of its model are known, else the model
    /// that marks a missing item.
    pub open spec fn item_model_of(&self, item: Id) -> Id {
        match lookup(self.registry.items@, item) {
            Some(kind) => if self.index_ranges@.contains_key(kind.model) {
                kind.model
            } else {
                self.registry.model_ids.items_missing
            },
            None => self.registry.model_ids.items_missing,
        }
    }

    /// Computes [`ResourceManager::model_of`].
    pub fn get_model(&self, model: Id) -> (drawn: Id)
        ensures
            drawn == self.model_of(model),
    {
        if self.index_ranges.contains_key(model) {
            model
        } else {
            self.registry.model_ids.missing
        }
    }

    /// Computes [`ResourceManager::item_model_of`].
    pub fn get_item_model(&self, item: Id) -> (drawn: Id)
        ensures
            drawn == self.item_model_of(item),
    {
        match self.registry.items.get(item) {
            Some(kind) => if self.index_ranges.contains_key(kind.model) {
                kind.model
            } else {
                self.registry.model_ids.items_missing
            },
            None => self.registry.model_ids.items_missing,
        }
    }
}

} // verus!
