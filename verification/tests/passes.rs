use automancy::passes::{
    plan_passes, Attachment, ClearValue, Draw, FrameCounts, InstanceSet, LoadOp, Pass, PassKind,
    Reads, Step, Target, GUI_DEPTH_THRESHOLD_PPM, WORLD_DEPTH_THRESHOLD_PPM,
};

fn counts() -> FrameCounts {
    FrameCounts { world_draws: 3, extra_draws: 2, overlay_vertices: 6, gui_items: 4, screenshot: false }
}

fn nothing() -> Reads {
    Reads {
        game: false,
        normal: false,
        depth: false,
        post_effects: false,
        first_combine: false,
        surface: false,
    }
}

fn render(step: &Step) -> Pass {
    match step {
        Step::Render(pass) => *pass,
        Step::Copy { .. } => panic!("a copy where a pass was expected"),
    }
}

fn writes(step: &Step) -> Vec<Target> {
    match step {
        Step::Render(pass) => {
            let mut targets = vec![pass.color.target];
            targets.extend(pass.normal.iter().map(|a| a.target));
            targets.extend(pass.depth.iter().map(|a| a.target));
            targets
        }
        Step::Copy { to, .. } => vec![*to],
    }
}

fn needs(step: &Step) -> Vec<Target> {
    match step {
        Step::Render(pass) => {
            let mut targets = Vec::new();
            let attachments =
                [Some(pass.color), pass.normal, pass.depth].into_iter().flatten();
            for attachment in attachments {
                if attachment.load == LoadOp::Load {
                    targets.push(attachment.target);
                }
            }
            let read = [
                (pass.reads.game, Target::Game),
                (pass.reads.normal, Target::Normal),
                (pass.reads.depth, Target::Depth),
                (pass.reads.post_effects, Target::PostEffects),
                (pass.reads.first_combine, Target::FirstCombine),
                (pass.reads.surface, Target::Surface),
            ];
            for (is_read, target) in read {
                if is_read {
                    targets.push(target);
                }
            }
            targets
        }
        Step::Copy { from, .. } => vec![*from],
    }
}

#[test]
fn passes_come_in_their_fixed_order() {
    let steps = plan_passes(counts());
    assert_eq!(steps.len(), 10);
    let kinds: Vec<PassKind> = steps[..9].iter().map(|step| render(step).kind).collect();
    assert_eq!(
        kinds,
        vec![
            PassKind::Game,
            PassKind::Extra,
            PassKind::GamePostEffects,
            PassKind::Overlay,
            PassKind::FirstCombine,
            PassKind::Gui,
            PassKind::GuiPostEffects,
            PassKind::SecondCombine,
            PassKind::Egui,
        ]
    );
    assert_eq!(steps[9], Step::Copy { from: Target::SecondCombine, to: Target::Surface });
}

#[test]
fn game_pass_clears_and_draws_the_world() {
    let steps = plan_passes(counts());
    assert_eq!(
        render(&steps[0]),
        Pass {
            kind: PassKind::Game,
            color: Attachment {
                target: Target::Game,
                load: LoadOp::Clear(ClearValue::Black),
                store: true,
            },
            normal: Some(Attachment {
                target: Target::Normal,
                load: LoadOp::Clear(ClearValue::NormalNeutral),
                store: true,
            }),
            depth: Some(Attachment {
                target: Target::Depth,
                load: LoadOp::Clear(ClearValue::DepthFar),
                store: true,
            }),
            reads: nothing(),
            draw: Draw::Indirect { set: InstanceSet::World, count: 3 },
            depth_threshold_ppm: None,
        }
    );
}

#[test]
fn extra_pass_keeps_what_the_game_pass_drew() {
    let steps = plan_passes(counts());
    assert_eq!(
        render(&steps[1]),
        Pass {
            kind: PassKind::Extra,
            color: Attachment { target: Target::Game, load: LoadOp::Load, store: true },
            normal: Some(Attachment { target: Target::Normal, load: LoadOp::Load, store: true }),
            depth: Some(Attachment { target: Target::Depth, load: LoadOp::Load, store: false }),
            reads: nothing(),
            draw: Draw::Indirect { set: InstanceSet::Extra, count: 2 },
            depth_threshold_ppm: None,
        }
    );
}

#[test]
fn post_effects_passes_differ_in_their_threshold_only() {
    let steps = plan_passes(counts());
    let world = render(&steps[2]);
    let gui = render(&steps[6]);
    assert_eq!(world.depth_threshold_ppm, Some(10));
    assert_eq!(gui.depth_threshold_ppm, Some(250));
    assert_eq!(WORLD_DEPTH_THRESHOLD_PPM, 10);
    assert_eq!(GUI_DEPTH_THRESHOLD_PPM, 250);
    assert_eq!(
        Pass { kind: PassKind::GuiPostEffects, depth_threshold_ppm: Some(250), ..world },
        gui
    );
    assert_eq!(
        world.color,
        Attachment {
            target: Target::PostEffects,
            load: LoadOp::Clear(ClearValue::Black),
            store: true,
        }
    );
    assert_eq!(world.reads, Reads { game: true, normal: true, depth: true, ..nothing() });
    assert_eq!(world.draw, Draw::FullScreenTriangle);
    assert_eq!((world.normal, world.depth), (None, None));
}

#[test]
fn gui_pass_clears_to_transparent() {
    let steps = plan_passes(counts());
    let gui = render(&steps[5]);
    assert_eq!(gui.color.load, LoadOp::Clear(ClearValue::Transparent));
    assert_eq!(gui.normal.unwrap().load, LoadOp::Clear(ClearValue::NormalNeutral));
    assert_eq!(gui.depth.unwrap().load, LoadOp::Clear(ClearValue::DepthFar));
    assert_eq!(gui.draw, Draw::GuiItems { count: 4 });
}

#[test]
fn combine_passes_merge_what_came_before() {
    let steps = plan_passes(counts());
    let first = render(&steps[4]);
    let second = render(&steps[7]);
    assert_eq!(first.color.target, Target::FirstCombine);
    assert_eq!(first.reads, Reads { post_effects: true, ..nothing() });
    assert_eq!(second.color.target, Target::SecondCombine);
    assert_eq!(second.reads, Reads { post_effects: true, first_combine: true, ..nothing() });
    assert_eq!(first.depth, None);
    assert_eq!(second.depth, None);
}

#[test]
fn overlay_and_egui_passes() {
    let steps = plan_passes(counts());
    let overlay = render(&steps[3]);
    assert_eq!(
        overlay.color,
        Attachment { target: Target::PostEffects, load: LoadOp::Load, store: true }
    );
    assert_eq!(
        overlay.depth,
        Some(Attachment { target: Target::Depth, load: LoadOp::Load, store: false })
    );
    assert_eq!(overlay.draw, Draw::Vertices { count: 6 });
    let egui = render(&steps[8]);
    assert_eq!(
        egui.color,
        Attachment {
            target: Target::Egui,
            load: LoadOp::Clear(ClearValue::Transparent),
            store: true,
        }
    );
    assert_eq!(egui.draw, Draw::External);
}

#[test]
fn empty_batches_issue_no_draw() {
    let steps = plan_passes(FrameCounts {
        world_draws: 0,
        extra_draws: 0,
        overlay_vertices: 0,
        gui_items: 0,
        screenshot: false,
    });
    assert_eq!(steps.len(), 10);
    for at in [0, 1, 3, 5] {
        assert_eq!(render(&steps[at]).draw, Draw::Skip);
    }
    for at in [2, 4, 6, 7] {
        assert_eq!(render(&steps[at]).draw, Draw::FullScreenTriangle);
    }
}

#[test]
fn screenshot_adds_two_steps_at_the_end() {
    let without = plan_passes(counts());
    let with = plan_passes(FrameCounts { screenshot: true, ..counts() });
    assert_eq!(with.len(), 12);
    assert_eq!(&with[..10], &without[..]);
    let pass = render(&with[10]);
    assert_eq!(pass.kind, PassKind::Screenshot);
    assert_eq!(pass.color.target, Target::Capture);
    assert_eq!(pass.reads, Reads { surface: true, ..nothing() });
    assert_eq!(pass.draw, Draw::FullScreenTriangle);
    assert_eq!(with[11], Step::Copy { from: Target::Capture, to: Target::CaptureBuffer });
}

#[test]
fn no_step_needs_what_no_earlier_step_wrote() {
    for screenshot in [false, true] {
        let steps = plan_passes(FrameCounts { screenshot, ..counts() });
        for (at, step) in steps.iter().enumerate() {
            for target in needs(step) {
                assert!(
                    steps[..at].iter().any(|earlier| writes(earlier).contains(&target)),
                    "step {} needs {:?}",
                    at,
                    target
                );
            }
        }
    }
}
