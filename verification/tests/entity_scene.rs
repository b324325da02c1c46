use entity_scene::diagnostics::Diagnostics;
use entity_scene::frame::{channel_values, fill_pixel_buffer};
use entity_scene::physics::{Context, Physics, Viewport};
use entity_scene::scene::Scene;
use entity_scene::ticker::{half, Ticker, BOUNCE_THRUST, GRAVITY_DRAG, MIRROR_OFFSET};

fn viewport() -> Viewport {
    // 80 x 192 pixels in hundredths of a display unit.
    Viewport { width: 8000, height: 19200 }
}

#[test]
fn physics_constructors_set_fields() {
    let p = Physics::new(1, 2, 3, 4, 5);
    assert_eq!(p.x, 1);
    assert_eq!(p.y, 2);
    assert_eq!(p.r, 3);
    assert_eq!(p.vx, 4);
    assert_eq!(p.vy, 5);
    assert_eq!(p.context, None);

    let c = Context::new(7, 1);
    let q = Physics::with_context(1, 2, 3, 4, 5, c);
    assert_eq!(q.context, Some(c));
    assert_eq!(c.frame, 7);
    assert_eq!(c.skip, 1);
    assert_eq!(c.period, 1);
}

#[test]
fn half_rounds_toward_zero() {
    assert_eq!(half(7000), 3500);
    assert_eq!(half(9), 4);
    assert_eq!(half(-9), -4);
    assert_eq!(half(0), 0);
    assert_eq!(half(-3600), -1800);
}

#[test]
fn static_ticker_is_identity() {
    let vp = viewport();
    let t = Ticker::Static;
    for p in [
        Physics::new(0, 0, 0, 0, 0),
        Physics::new(10, 10, 5, 0, 0),
        Physics::new(-3, 19200, 1, 2, -9),
        Physics::with_context(1, 2, 3, 4, 5, Context::new(0, 2)),
    ] {
        assert_eq!(t.tick(p, &vp), p);
    }
}

#[test]
fn bounce_accumulates_drag_below_bound() {
    let vp = Viewport { width: 8000, height: 100 };
    let p = Physics::new(7, 20, 1, 0, 30);
    let q = Ticker::Bounce.tick(p, &vp);
    assert_eq!(q.y, 50);
    assert_eq!(q.vy, 30 + GRAVITY_DRAG);
    assert_eq!(q.x, 7);
    assert_eq!(q.r, 1);
    assert_eq!(q.vx, 0);
}

#[test]
fn bounce_boundary_is_inclusive() {
    // y + vy landing exactly on the height bound still accumulates drag.
    let vp = Viewport { width: 8000, height: 100 };
    let p = Physics::new(0, 60, 1, 0, 40);
    let q = Ticker::Bounce.tick(p, &vp);
    assert_eq!(q.y, 100);
    assert_eq!(q.vy, 40 + GRAVITY_DRAG);
}

#[test]
fn bounce_resets_velocity_past_bound() {
    let vp = Viewport { width: 8000, height: 100 };
    // The reset ignores the prior velocity.
    for vy in [2, 1000] {
        let p = Physics::new(0, 99, 1, 0, vy);
        let q = Ticker::Bounce.tick(p, &vp);
        assert_eq!(q.y, 99 + vy);
        assert_eq!(q.vy, BOUNCE_THRUST);
    }
}

#[test]
fn should_advance_once_per_period_plus_one() {
    // Period 1: false, true, false, true, ...
    let mut c = Context::new(0, 1);
    let pattern: Vec<bool> = (0..6).map(|_| c.should_advance()).collect();
    assert_eq!(pattern, vec![false, true, false, true, false, true]);

    // Period 0: every call advances.
    let mut c = Context::new(0, 0);
    assert!(c.should_advance());
    assert!(c.should_advance());

    // Period 2: two skips between advances.
    let mut c = Context::new(0, 2);
    let pattern: Vec<bool> = (0..6).map(|_| c.should_advance()).collect();
    assert_eq!(pattern, vec![false, false, true, false, false, true]);
}

#[test]
fn should_advance_moves_only_the_skip_counter() {
    let mut c = Context::new(4, 2);
    assert!(!c.should_advance());
    assert_eq!(c.frame, 4);
    assert_eq!(c.skip, 1);
    assert_eq!(c.period, 2);
    c.set_frame(9);
    assert_eq!(c.frame, 9);
    assert_eq!(c.skip, 1);
}

#[test]
fn forward_reads_table_at_current_frame_then_advances() {
    let vp = viewport();
    let t = Ticker::SpriteForward { table: vec![(7000, 300), (100, -200)] };
    let p = Physics::with_context(1, 2, 3, 4, 5, Context::new(0, 0));

    let q1 = t.tick(p, &vp);
    assert_eq!((q1.x, q1.y), (3500, 300));
    assert_eq!((q1.r, q1.vx, q1.vy), (3, 4, 5));
    assert_eq!(q1.context.unwrap().frame, 1);

    let q2 = t.tick(q1, &vp);
    assert_eq!((q2.x, q2.y), (50, -200));
    // Forward wraparound: past the last index the frame returns to 0.
    assert_eq!(q2.context.unwrap().frame, 0);
}

#[test]
fn forward_skip_tick_keeps_position() {
    let vp = viewport();
    let t = Ticker::SpriteForward { table: vec![(7000, 300), (100, -200)] };
    let p = Physics::with_context(1, 2, 3, 4, 5, Context::new(0, 1));
    let q = t.tick(p, &vp);
    assert_eq!((q.x, q.y, q.r, q.vx, q.vy), (1, 2, 3, 4, 5));
    let c = q.context.unwrap();
    assert_eq!(c.frame, 0);
    assert_eq!(c.skip, 0);
}

#[test]
fn forward_cycle_returns_to_start() {
    // A table of length 3 with frame-skip period 1: after 3 * (1 + 1) ticks
    // the frame index is back at its starting value and the context fresh.
    let vp = viewport();
    let t = Ticker::SpriteForward { table: vec![(0, 0), (200, 100), (400, 300)] };
    let mut p = Physics::with_context(0, 0, 3, 0, 0, Context::new(0, 1));
    let mut frames = Vec::new();
    for _ in 0..6 {
        p = t.tick(p, &vp);
        frames.push(p.context.unwrap().frame);
    }
    assert_eq!(frames, vec![0, 1, 1, 2, 2, 0]);
    let c = p.context.unwrap();
    assert_eq!(c.frame, 0);
    assert_eq!(c.skip, c.period);
}

#[test]
fn reverse_wraps_to_last_index() {
    let vp = viewport();
    let t = Ticker::SpriteReverse { table: vec![(7000, 300), (100, -200), (-400, 0)] };
    let p = Physics::with_context(1, 2, 3, 4, 5, Context::new(0, 0));
    let q = t.tick(p, &vp);
    // The position comes from the table at the old index 0, shifted right.
    assert_eq!((q.x, q.y), (3500 + MIRROR_OFFSET, 300));
    // Backward wraparound: index 0 advances to the last index.
    assert_eq!(q.context.unwrap().frame, 2);
}

#[test]
fn reverse_steps_backward() {
    let vp = viewport();
    let t = Ticker::SpriteReverse { table: vec![(7000, 300), (100, -200), (-400, 0)] };
    let p = Physics::with_context(1, 2, 3, 4, 5, Context::new(2, 0));
    let q = t.tick(p, &vp);
    assert_eq!((q.x, q.y), (half(-400) + MIRROR_OFFSET, 0));
    assert_eq!(q.context.unwrap().frame, 1);
}

fn demo_scene() -> Scene {
    let mut scene = Scene::new(Viewport { width: 8000, height: 100 });
    scene.add_entity(10, 10, 5, 0, 0, Ticker::Static, None);
    scene.add_entity(0, 0, 1, 0, 5, Ticker::Bounce, None);
    scene.add_entity(
        0,
        0,
        3,
        0,
        0,
        Ticker::SpriteForward { table: vec![(3500, 14300), (4000, 14200)] },
        Some(Context::new(0, 1)),
    );
    scene
}

#[test]
fn scene_tick_updates_all_and_keeps_count() {
    let mut scene = demo_scene();
    assert_eq!(scene.len(), 3);
    scene.tick();
    assert_eq!(scene.len(), 3);
    // Every entity took exactly one step of its own rule.
    assert_eq!(scene.physics_at(0), Physics::new(10, 10, 5, 0, 0));
    assert_eq!(scene.physics_at(1).y, 5);
    assert_eq!(scene.physics_at(1).vy, 5 + GRAVITY_DRAG);
    let c = scene.physics_at(2).context.unwrap();
    assert_eq!(c.frame, 0);
    assert_eq!(c.skip, 0);
}

#[test]
fn scene_tick_sequence_is_deterministic() {
    // Two identical scenes ticked the same number of times pass through
    // identical states: no hidden order-dependence across entities.
    let mut a = demo_scene();
    let mut b = demo_scene();
    a.tick();
    b.tick();
    assert_eq!(a, b);
    a.tick();
    b.tick();
    assert_eq!(a, b);
}

#[test]
fn scene_tick_matches_per_entity_ticks() {
    // Ticking the scene twice equals stepping each entity twice on its own.
    let vp = Viewport { width: 8000, height: 100 };
    let mut scene = demo_scene();
    scene.tick();
    scene.tick();
    let bounce = Ticker::Bounce.tick(
        Ticker::Bounce.tick(Physics::new(0, 0, 1, 0, 5), &vp),
        &vp,
    );
    assert_eq!(scene.physics_at(1), bounce);
}

#[test]
fn end_to_end_one_tick_scenario() {
    let mut scene = Scene::new(Viewport { width: 8000, height: 100 });
    scene.add_entity(10, 10, 5, 0, 0, Ticker::Static, None);
    scene.add_entity(0, 0, 1, 0, 5, Ticker::Bounce, None);
    scene.tick();
    assert_eq!(scene.physics_at(0), Physics::new(10, 10, 5, 0, 0));
    let b = scene.physics_at(1);
    assert_eq!(b.y, 5);
    assert_eq!(b.vy, 5 + GRAVITY_DRAG);
}

#[test]
fn fill_pixel_buffer_writes_rgba_and_reuses_buffer() {
    let mut buffer = Vec::new();
    fill_pixel_buffer(&vec![(1, 2, 3), (9, 8, 7)], &mut buffer);
    assert_eq!(buffer, vec![1, 2, 3, 255, 9, 8, 7, 255]);
    // The next frame overwrites the buffer in place.
    fill_pixel_buffer(&vec![(4, 5, 6)], &mut buffer);
    assert_eq!(buffer, vec![4, 5, 6, 255]);
}

#[test]
fn channel_values_reads_one_channel() {
    let buffer = vec![1, 2, 3, 255, 9, 8, 7, 255];
    assert_eq!(channel_values(&buffer, 1), vec![2, 8]);
    assert_eq!(channel_values(&buffer, 0), vec![1, 9]);
    assert_eq!(channel_values(&buffer, 3), vec![255, 255]);
    // A trailing fragment of less than one pixel is ignored.
    let ragged = vec![1, 2, 3, 255, 9];
    assert_eq!(channel_values(&ragged, 1), vec![2]);
}

#[test]
fn diagnostics_report_each_frame_once() {
    let mut d = Diagnostics::new();
    assert_eq!(d.last_frame, 0);
    d.publish_frame(5);
    assert!(d.record_last());
    assert!(!d.record_last());
    d.publish_frame(7);
    assert!(d.record_last());
    d.publish_frame(5);
    assert!(!d.record_last());
    assert_eq!(d.reported, vec![5, 7]);
}
