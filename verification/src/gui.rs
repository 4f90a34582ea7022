//! The draws of the GUI pass: one indexed draw for each item, under the
//! item's own viewport and scissor rectangle or under those of the screen.

use crate::batch::{GeometryCache, IndexRange};
use crate::id::Id;
use vstd::prelude::*;

verus! {

/// How many pixels of the layer targets stand for one pixel of the surface,
/// along each axis.
pub const UPSCALE_LEVEL: u32 = 2;

/// A size in pixels.
#[derive(Clone, Copy, Debug, PartialEq, Eq, Structural)]
pub struct SurfaceSize {
    pub width: u32,
    pub height: u32,
}

/// A rectangle in pixels.
#[derive(Clone, Copy, Debug, PartialEq, Eq, Structural)]
pub struct PixelRect {
    pub x: u32,
    pub y: u32,
    pub width: u32,
    pub height: u32,
}

/// One model drawn as part of the GUI. Its viewport and its depth range are
/// the caller's own values and pass through as they are; its scissor
/// rectangle is in pixels of the surface.
#[derive(Debug, PartialEq, Eq)]
pub struct GuiItem<V, D> {
    pub model: Id,
    pub viewport: Option<V>,
    pub scissor: Option<PixelRect>,
    pub depth: Option<D>,
}

/// The viewport of a draw.
#[derive(Debug, PartialEq, Eq)]
pub enum Viewport<V> {
    /// All of a layer target of this size.
    Full { width: u32, height: u32 },
    /// The item's own viewport, to be scaled like the layer targets.
    Given(V),
}

/// The depth range of a draw.
#[derive(Debug, PartialEq, Eq)]
pub enum DepthRange<D> {
    /// From one down to zero.
    Whole,
    /// The item's own range.
    Given(D),
}

/// One indexed draw of the GUI pass.
#[derive(Debug, PartialEq, Eq)]
pub struct GuiDraw<V, D> {
    /// The first index that is drawn.
    pub first_index: u32,
    /// The index after the last one that is drawn.
    pub end_index: u32,
    /// The one instance that is drawn.
    pub instance: u32,
    pub viewport: Viewport<V>,
    /// The scissor rectangle, in pixels of the layer targets.
    pub scissor: PixelRect,
    pub depth: DepthRange<D>,
}

/// Why the GUI items could not be drawn.
#[derive(Clone, Copy, Debug, PartialEq, Eq, Structural)]
pub enum GuiError {
    /// An item names a model whose index range is not known.
    UnknownModel(Id),
    /// The index range of a model ends beyond what 32 bits count.
    IndexRangeTooLarge(Id),
    /// The layer targets for this surface are wider or higher than 32 bits count.
    SurfaceTooLarge,
    /// The scissor rectangle of the item at this position does not fit the
    /// layer targets' 32 bits.
    ScissorTooLarge(u32),
    /// There are more items than a draw can number.
    TooManyItems,
}

/// Whether a length scaled to the layer targets can be counted in 32 bits.
pub open spec fn upscales(length: u32) -> bool {
    length * UPSCALE_LEVEL <= u32::MAX
}

/// The size of the layer targets for a surface.
pub open spec fn upscaled_size(size: SurfaceSize) -> Option<SurfaceSize> {
    if upscales(size.width) && upscales(size.height) {
        Some(
            SurfaceSize {
                width: (size.width * UPSCALE_LEVEL) as u32,
                height: (size.height * UPSCALE_LEVEL) as u32,
            },
        )
    } else {
        None
    }
}

/// A rectangle of the surface on the layer targets.
pub open spec fn upscaled_rect(rect: PixelRect) -> Option<PixelRect> {
    if upscales(rect.x) && upscales(rect.y) && upscales(rect.width) && upscales(rect.height) {
        Some(
            PixelRect {
                x: (rect.x * UPSCALE_LEVEL) as u32,
                y: (rect.y * UPSCALE_LEVEL) as u32,
                width: (rect.width * UPSCALE_LEVEL) as u32,
                height: (rect.height * UPSCALE_LEVEL) as u32,
            },
        )
    } else {
        None
    }
}

/// The draw for the item at position `at`.
pub open spec fn gui_draw_of<V, D>(
    item: GuiItem<V, D>,
    at: u32,
    size: SurfaceSize,
    geometry: Map<Id, IndexRange>,
) -> Result<GuiDraw<V, D>, GuiError> {
    if !geometry.contains_key(item.model) {
        Err(GuiError::UnknownModel(item.model))
    } else if geometry[item.model].offset + geometry[item.model].size > u32::MAX {
        Err(GuiError::IndexRangeTooLarge(item.model))
    } else if upscaled_size(size) is None {
        Err(GuiError::SurfaceTooLarge)
    } else if item.scissor matches Some(rect) && upscaled_rect(rect) is None {
        Err(GuiError::ScissorTooLarge(at))
    } else {
        let full = upscaled_size(size)->0;
        Ok(
            GuiDraw {
                first_index: geometry[item.model].offset,
                end_index: (geometry[item.model].offset + geometry[item.model].size) as u32,
                instance: at,
                viewport: match item.viewport {
                    Some(given) => Viewport::Given(given),
                    None => Viewport::Full { width: full.width, height: full.height },
                },
                scissor: match item.scissor {
                    Some(rect) => upscaled_rect(rect)->0,
                    None => PixelRect { x: 0, y: 0, width: full.width, height: full.height },
                },
                depth: match item.depth {
                    Some(given) => DepthRange::Given(given),
                    None => DepthRange::Whole,
                },
            },
        )
    }
}

/// The draws for the first `n` items, or what is wrong with the first item
/// among them that cannot be drawn.
pub open spec fn gui_draws_of<V, D>(
    items: Seq<GuiItem<V, D>>,
    size: SurfaceSize,
    geometry: Map<Id, IndexRange>,
    n: nat,
) -> Result<Seq<GuiDraw<V, D>>, GuiError>
    decreases n,
{
    if n == 0 {
        Ok(Seq::empty())
    } else {
        match gui_draws_of(items, size, geometry, (n - 1) as nat) {
            Err(error) => Err(error),
            Ok(draws) => match gui_draw_of(items[n - 1], (n - 1) as u32, size, geometry) {
                Err(error) => Err(error),
                Ok(draw) => Ok(draws.push(draw)),
            },
        }
    }
}

/// Computes [`upscaled_size`].
pub fn upscale_size(size: SurfaceSize) -> (scaled: Option<SurfaceSize>)
    ensures
        scaled == upscaled_size(size),
{
    match (size.width.checked_mul(UPSCALE_LEVEL), size.height.checked_mul(UPSCALE_LEVEL)) {
        (Some(width), Some(height)) => Some(SurfaceSize { width, height }),
        _ => None,
    }
}

/// Computes [`upscaled_rect`].
pub fn upscale_rect(rect: PixelRect) -> (scaled: Option<PixelRect>)
    ensures
        scaled == upscaled_rect(rect),
{
    match (
        rect.x.checked_mul(UPSCALE_LEVEL),
        rect.y.checked_mul(UPSCALE_LEVEL),
        rect.width.checked_mul(UPSCALE_LEVEL),
        rect.height.checked_mul(UPSCALE_LEVEL),
    ) {
        (Some(x), Some(y), Some(width), Some(height)) => Some(PixelRect { x, y, width, height }),
        _ => None,
    }
}

/// The draw for one GUI item: the index range of its model, the instance at
/// the item's position, and the item's viewport, scissor rectangle and depth
/// range, each replaced by that of the whole screen where the item has none.
pub fn gui_draw<V: Copy, D: Copy>(
    item: &GuiItem<V, D>,
    at: u32,
    size: SurfaceSize,
    geometry: &GeometryCache,
) -> (draw: Result<GuiDraw<V, D>, GuiError>)
    ensures
        draw == gui_draw_of(*item, at, size, geometry@),
{
    let range = match geometry.get(item.model) {
        Some(range) => *range,
        None => {
            return Err(GuiError::UnknownModel(item.model));
        },
    };
    let end_index = match range.offset.checked_add(range.size) {
        Some(end) => end,
        None => {
            return Err(GuiError::IndexRangeTooLarge(item.model));
        },
    };
    let full = match upscale_size(size) {
        Some(full) => full,
        None => {
            return Err(GuiError::SurfaceTooLarge);
        },
    };
    let scissor = match item.scissor {
        Some(rect) => match upscale_rect(rect) {
            Some(scaled) => scaled,
            None => {
                return Err(GuiError::ScissorTooLarge(at));
            },
        },
        None => PixelRect { x: 0, y: 0, width: full.width, height: full.height },
    };
    let viewport = match item.viewport {
        Some(given) => Viewport::Given(given),
        None => Viewport::Full { width: full.width, height: full.height },
    };
    let depth = match item.depth {
        Some(given) => DepthRange::Given(given),
        None => DepthRange::Whole,
    };
    Ok(
        GuiDraw {
            first_index: range.offset,
            end_index,
            instance: at,
            viewport,
            scissor,
            depth,
        },
    )
}

/// The draws of the GUI pass, one for each item and in the items' order. No
/// draws are made of more items than `u32::MAX`; otherwise the first item
/// that cannot be drawn decides the error.
pub fn gui_draws<V: Copy, D: Copy>(
    items: &Vec<GuiItem<V, D>>,
    size: SurfaceSize,
    geometry: &GeometryCache,
) -> (draws: Result<Vec<GuiDraw<V, D>>, GuiError>)
    ensures
        items@.len() > u32::MAX ==> draws == Err::<Vec<GuiDraw<V, D>>, GuiError>(
            GuiError::TooManyItems,
        ),
        items@.len() <= u32::MAX ==> match gui_draws_of(items@, size, geometry@, items@.len()) {
            Ok(expected) => draws matches Ok(made) && made@ == expected,
            Err(error) => draws == Err::<Vec<GuiDraw<V, D>>, GuiError>(error),
        },
{
    if items.len() > u32::MAX as usize {
        return Err(GuiError::TooManyItems);
    }
    let mut draws: Vec<GuiDraw<V, D>> = Vec::new();
    let mut i: usize = 0;
    while i < items.len()
        invariant
            i <= items@.len() <= u32::MAX,
            gui_draws_of(items@, size, geometry@, i as nat) == Ok::<Seq<GuiDraw<V, D>>, GuiError>(
                draws@,
            ),
        decreases items@.len() - i,
    {
        match gui_draw(&items[i], i as u32, size, geometry) {
            Ok(draw) => {
                draws.push(draw);
            },
            Err(error) => {
                proof {
                    lemma_gui_error_stays(items@, size, geometry@, (i + 1) as nat, items@.len());
                }
                return Err(error);
            },
        }
        i = i + 1;
    }
    Ok(draws)
}

/// Once an item cannot be drawn, its error is the error of every longer run
/// of items.
pub proof fn lemma_gui_error_stays<V, D>(
    items: Seq<GuiItem<V, D>>,
    size: SurfaceSize,
    geometry: Map<Id, IndexRange>,
    n: nat,
    m: nat,
)
    requires
        n <= m,
        gui_draws_of(items, size, geometry, n) is Err,
    ensures
        gui_draws_of(items, size, geometry, m) == gui_draws_of(items, size, geometry, n),
    decreases m,
{
    if n < m {
        lemma_gui_error_stays(items, size, geometry, n, (m - 1) as nat);
    }
}

/// Where the GUI items can be drawn there is one draw for each of them, and
/// the draw at a position is the draw of the item at that position.
pub proof fn lemma_gui_draws<V, D>(
    items: Seq<GuiItem<V, D>>,
    size: SurfaceSize,
    geometry: Map<Id, IndexRange>,
    n: nat,
)
    requires
        gui_draws_of(items, size, geometry, n) is Ok,
    ensures
        gui_draws_of(items, size, geometry, n)->Ok_0.len() == n,
        forall|i: int|
            0 <= i < n ==> gui_draw_of(items[i], i as u32, size, geometry) == Ok::<
                GuiDraw<V, D>,
                GuiError,
            >(#[trigger] gui_draws_of(items, size, geometry, n)->Ok_0[i]),
    decreases n,
{
    if n > 0 {
        lemma_gui_draws(items, size, geometry, (n - 1) as nat);
    }
}

} // verus!
