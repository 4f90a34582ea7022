//! Frame planning for a hex-tile world renderer.
//!
//! Every frame the renderer turns the visible tiles and their runtime state
//! into instance data, groups it by model, derives the indirect draws, lays
//! out the sequence of render passes and, on request, captures the composited
//! frame. This crate holds those decisions as verified functions over plain
//! values; the caller owns the device, the window and the simulation.
//!
//! - [`renderer`] makes the scene of a frame and plans how it is drawn.
//! - [`world`] shows the tiles as their data has them and fills the view.
//! - [`batch`] groups instances by model and derives the indirect draws.
//! - [`passes`] lists the render passes with their targets and load policies.
//! - [`gui`] derives the draws of the GUI pass.
//! - [`buffer`] decides between writing into a buffer and replacing it.
//! - [`animation`] places the glyphs of items that travel between tiles.
//! - [`screenshot`] lays out the capture buffer and unpads what comes back.
//! - [`resources`], [`translate`], [`options`], [`data`], [`instance`],
//!   [`coord`], [`coord_map`], [`colors`] and [`id`] hold what these work on.

pub mod animation;
pub mod batch;
pub mod buffer;
pub mod colors;
pub mod coord;
pub mod coord_map;
pub mod data;
pub mod gui;
pub mod id;
pub mod instance;
pub mod options;
pub mod passes;
pub mod renderer;
pub mod resources;
pub mod screenshot;
pub mod translate;
pub mod world;
