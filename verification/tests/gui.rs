use automancy::batch::{GeometryCache, IndexRange};
use automancy::gui::{
    gui_draw, gui_draws, upscale_rect, upscale_size, DepthRange, GuiDraw, GuiError, GuiItem,
    PixelRect, SurfaceSize, Viewport, UPSCALE_LEVEL,
};
use automancy::id::Id;

type Item = GuiItem<(f32, f32, f32, f32), (f32, f32)>;

fn geometry() -> GeometryCache {
    let mut geometry = GeometryCache::new();
    geometry.insert(Id(1), IndexRange { offset: 0, size: 36 });
    geometry.insert(Id(2), IndexRange { offset: 36, size: 12 });
    geometry.insert(Id(5), IndexRange { offset: u32::MAX, size: 1 });
    geometry
}

fn size() -> SurfaceSize {
    SurfaceSize { width: 800, height: 600 }
}

fn plain(model: usize) -> Item {
    GuiItem { model: Id(model), viewport: None, scissor: None, depth: None }
}

#[test]
fn upscale_doubles() {
    assert_eq!(UPSCALE_LEVEL, 2);
    assert_eq!(upscale_size(size()), Some(SurfaceSize { width: 1600, height: 1200 }));
    assert_eq!(
        upscale_rect(PixelRect { x: 1, y: 2, width: 3, height: 4 }),
        Some(PixelRect { x: 2, y: 4, width: 6, height: 8 })
    );
    assert_eq!(upscale_size(SurfaceSize { width: 0x8000_0000, height: 1 }), None);
    assert_eq!(upscale_size(SurfaceSize { width: 1, height: 0x8000_0000 }), None);
    assert_eq!(
        upscale_size(SurfaceSize { width: 0x7fff_ffff, height: 0 }),
        Some(SurfaceSize { width: 0xffff_fffe, height: 0 })
    );
    assert_eq!(upscale_rect(PixelRect { x: 0, y: 0, width: 0, height: 0x8000_0000 }), None);
}

#[test]
fn gui_item_without_rectangles_is_drawn_over_the_whole_screen() {
    assert_eq!(
        gui_draw(&plain(2), 7, size(), &geometry()),
        Ok(GuiDraw {
            first_index: 36,
            end_index: 48,
            instance: 7,
            viewport: Viewport::Full { width: 1600, height: 1200 },
            scissor: PixelRect { x: 0, y: 0, width: 1600, height: 1200 },
            depth: DepthRange::Whole,
        })
    );
}

#[test]
fn gui_item_keeps_its_own_viewport_scissor_and_depth() {
    let item: Item = GuiItem {
        model: Id(1),
        viewport: Some((1.5, 2.5, 30.0, 40.0)),
        scissor: Some(PixelRect { x: 10, y: 20, width: 30, height: 40 }),
        depth: Some((0.5, 0.25)),
    };
    assert_eq!(
        gui_draw(&item, 0, size(), &geometry()),
        Ok(GuiDraw {
            first_index: 0,
            end_index: 36,
            instance: 0,
            viewport: Viewport::Given((1.5, 2.5, 30.0, 40.0)),
            scissor: PixelRect { x: 20, y: 40, width: 60, height: 80 },
            depth: DepthRange::Given((0.5, 0.25)),
        })
    );
}

#[test]
fn gui_draws_number_the_instances() {
    let items = vec![plain(1), plain(2), plain(1)];
    let draws = gui_draws(&items, size(), &geometry()).unwrap();
    assert_eq!(draws.len(), 3);
    let instances: Vec<u32> = draws.iter().map(|draw| draw.instance).collect();
    assert_eq!(instances, vec![0, 1, 2]);
    let ranges: Vec<(u32, u32)> =
        draws.iter().map(|draw| (draw.first_index, draw.end_index)).collect();
    assert_eq!(ranges, vec![(0, 36), (36, 48), (0, 36)]);
}

#[test]
fn gui_draws_of_nothing() {
    let items: Vec<Item> = Vec::new();
    assert_eq!(gui_draws(&items, size(), &geometry()), Ok(vec![]));
}

#[test]
fn gui_errors() {
    assert_eq!(gui_draw(&plain(9), 0, size(), &geometry()), Err(GuiError::UnknownModel(Id(9))));
    assert_eq!(
        gui_draw(&plain(5), 0, size(), &geometry()),
        Err(GuiError::IndexRangeTooLarge(Id(5)))
    );
    let wide = SurfaceSize { width: u32::MAX, height: 1 };
    assert_eq!(gui_draw(&plain(1), 0, wide, &geometry()), Err(GuiError::SurfaceTooLarge));
    let scissor: Item = GuiItem {
        scissor: Some(PixelRect { x: 0, y: 0, width: u32::MAX, height: 1 }),
        ..plain(1)
    };
    assert_eq!(gui_draw(&scissor, 3, size(), &geometry()), Err(GuiError::ScissorTooLarge(3)));
}

#[test]
fn gui_draws_stop_at_the_first_item_that_cannot_be_drawn() {
    let scissor: Item = GuiItem {
        scissor: Some(PixelRect { x: u32::MAX, y: 0, width: 0, height: 0 }),
        ..plain(1)
    };
    let items = vec![plain(1), scissor, plain(9)];
    assert_eq!(gui_draws(&items, size(), &geometry()), Err(GuiError::ScissorTooLarge(1)));
    let items = vec![plain(1), plain(9), plain(5)];
    assert_eq!(gui_draws(&items, size(), &geometry()), Err(GuiError::UnknownModel(Id(9))));
}
