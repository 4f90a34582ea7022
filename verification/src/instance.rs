//! What is drawn: instances and the render units that carry them.
//!
//! A transform is held as what it was made from, not as numbers: the caller
//! turns it into a matrix when the instance is packed for upload.

use crate::colors::Rgba;
use crate::coord::TileCoord;
use crate::id::Id;
use vstd::prelude::*;

verus! {

/// Where the light of an instance stands.
#[derive(Clone, Copy, Debug, PartialEq, Eq, Structural)]
pub enum LightPos {
    /// At the origin of the world.
    Origin,
    /// At the camera of the frame.
    Camera,
}

/// A point of the hex grid between tiles: `q_num / den` and `r_num / den`.
#[derive(Clone, Copy, Debug, PartialEq, Eq, Structural)]
pub struct FractionalCoord {
    pub q_num: i128,
    pub r_num: i128,
    pub den: u64,
}

/// The untransformed place of an instance.
#[derive(Clone, Copy, Debug, PartialEq, Eq, Structural)]
pub enum Placement {
    /// At the origin, as the model was made.
    Identity,
    /// By a matrix that the caller keeps under this number.
    Given(u32),
    /// On the far plane, at the pixel position of a tile.
    Tile(TileCoord),
    /// Stretched into a line from the pixel position of one tile to that of another.
    Line { from: TileCoord, to: TileCoord },
    /// A small glyph above the tiles at the pixel position of `at`, turned
    /// towards the hex direction `heading`.
    Glyph { at: FractionalCoord, heading_q: i64, heading_r: i64 },
}

/// A placement, then a turn about the vertical axis.
#[derive(Clone, Copy, Debug, PartialEq, Eq, Structural)]
pub struct Transform {
    pub base: Placement,
    /// The turn in degrees, counter-clockwise, at least 0 and below 360.
    pub turn: u16,
}

/// `degrees` brought into the range from 0 to 359.
pub open spec fn normalized_degrees(degrees: int) -> int {
    degrees % 360
}

impl Transform {
    /// The turn is a whole number of degrees below a full circle.
    pub open spec fn wf(self) -> bool {
        self.turn < 360
    }

    /// The transform that changes nothing.
    pub fn identity() -> (transform: Transform)
        ensures
            transform == (Transform { base: Placement::Identity, turn: 0 }),
    {
        Transform { base: Placement::Identity, turn: 0 }
    }

    /// A placement without a turn.
    pub fn placed(base: Placement) -> (transform: Transform)
        ensures
            transform == (Transform { base, turn: 0 }),
    {
        Transform { base, turn: 0 }
    }

    /// This transform followed by a turn of `degrees` about the vertical axis.
    pub fn turned(&self, degrees: i32) -> (transform: Transform)
        ensures
            transform.base == self.base,
            transform.turn == normalized_degrees(self.turn + degrees),
            transform.wf(),
    {
        // 11930465 full circles are more than any `i32` can take away.
        let shifted: i64 = self.turn as i64 + degrees as i64 + 4294967400;
        assert((self.turn + degrees + 4294967400) % 360 == (self.turn + degrees) % 360) by {
            vstd::arithmetic::div_mod::lemma_mod_multiples_vanish(
                11930465,
                self.turn + degrees,
                360,
            );
        }
        Transform { base: self.base, turn: (shifted % 360) as u16 }
    }
}

/// One drawn copy of a model.
#[derive(Clone, Copy, Debug, PartialEq, Eq, Structural)]
pub struct InstanceData {
    pub color_offset: Rgba,
    pub light_pos: LightPos,
    pub model_matrix: Transform,
}

impl InstanceData {
    /// The instance that [`Default::default`] returns: no color offset, the
    /// light at the origin, the model where it was made.
    pub open spec fn plain() -> InstanceData {
        InstanceData {
            color_offset: Rgba { r: 0, g: 0, b: 0, a: 0 },
            light_pos: LightPos::Origin,
            model_matrix: Transform { base: Placement::Identity, turn: 0 },
        }
    }

    pub fn with_model_matrix(self, model_matrix: Transform) -> (instance: InstanceData)
        ensures
            instance == (InstanceData { model_matrix, ..self }),
    {
        InstanceData { model_matrix, ..self }
    }

    pub fn with_color_offset(self, color_offset: Rgba) -> (instance: InstanceData)
        ensures
            instance == (InstanceData { color_offset, ..self }),
    {
        InstanceData { color_offset, ..self }
    }

    pub fn with_light_pos(self, light_pos: LightPos) -> (instance: InstanceData)
        ensures
            instance == (InstanceData { light_pos, ..self }),
    {
        InstanceData { light_pos, ..self }
    }
}

impl Default for InstanceData {
    fn default() -> (instance: InstanceData)
        ensures
            instance == InstanceData::plain(),
    {
        InstanceData {
            color_offset: Rgba { r: 0, g: 0, b: 0, a: 0 },
            light_pos: LightPos::Origin,
            model_matrix: Transform { base: Placement::Identity, turn: 0 },
        }
    }
}

/// What is drawn at one tile: an instance, the tile it shows and the model
/// it is drawn with.
#[derive(Clone, Copy, Debug, PartialEq, Eq, Structural)]
pub struct RenderUnit {
    pub instance: InstanceData,
    pub tile: Id,
    pub model: Id,
}

} // verus!
