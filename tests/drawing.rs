use shape_draw::{
    BoxAction, BoxDrawResources, DrawShapeEvent, DrawStateEvent, DrawingState, Editing, Extents,
    Placement, Point, Shape, ShapeDrawer, TickInput, TouchInput, TouchPhase, Translation,
};

fn resources() -> BoxDrawResources {
    BoxDrawResources { initial_size: 10, initial_height: 200 }
}

fn quiet() -> TickInput {
    TickInput {
        just_pressed: false,
        just_released: false,
        pressed: false,
        touches: Vec::new(),
        hit: None,
        target_shape: None,
        fresh: 0,
        requests: Vec::new(),
    }
}

fn request(ev: DrawStateEvent) -> TickInput {
    TickInput { requests: vec![ev], ..quiet() }
}

fn press(hit: Point, fresh: u64) -> TickInput {
    TickInput { just_pressed: true, pressed: true, hit: Some(hit), fresh, ..quiet() }
}

fn hold(hit: Point) -> TickInput {
    TickInput { pressed: true, hit: Some(hit), ..quiet() }
}

fn release(hit: Point) -> TickInput {
    TickInput { just_released: true, hit: Some(hit), ..quiet() }
}

fn enabled_drawer() -> ShapeDrawer {
    let mut d = ShapeDrawer::new(resources(), false);
    let out = d.tick(&request(DrawStateEvent::Enable));
    assert!(out.delivered.is_empty());
    assert_eq!(d.state(), DrawingState::Idle(None));
    d
}

fn p(x: i32, y: i32, z: i32) -> Point {
    Point { x, y, z }
}

#[test]
fn new_drawer_starts_disabled_and_empty() {
    let d = ShapeDrawer::new(resources(), false);
    assert_eq!(d.state(), DrawingState::Disabled);
    assert_eq!(d.editing(), None);
    assert_eq!(d.pending_len(), 0);
}

#[test]
fn press_on_new_drawing_spawns_and_reports_next_tick() {
    let mut d = enabled_drawer();
    let out = d.tick(&press(p(1, 0, 1), 42));
    let shape = Extents { width: 10, height: 200, depth: 10 };
    assert_eq!(
        out.action,
        BoxAction::Spawn(Placement {
            entity: 42,
            extents: shape,
            translation: Translation { x: 6, y: 100, z: 6 },
        })
    );
    assert!(out.delivered.is_empty());
    assert_eq!(out.resized, None);
    assert_eq!(
        d.editing(),
        Some(Editing { entity: 42, origin: p(1, 0, 1), shape: Shape::Box(shape) })
    );
    let next = d.tick(&hold(p(1, 0, 1)));
    assert_eq!(next.delivered, vec![DrawShapeEvent::Spawned(42)]);
    assert_eq!(next.action, BoxAction::Nothing);
}

#[test]
fn dragging_resizes_without_events() {
    let mut d = enabled_drawer();
    d.tick(&press(p(1, 0, 1), 5));
    let first = d.tick(&hold(p(1, 0, 1)));
    assert_eq!(first.resized, None);
    let out = d.tick(&hold(p(3, 0, 1)));
    assert!(out.delivered.is_empty());
    assert_eq!(out.action, BoxAction::Nothing);
    let placed = out.resized.unwrap();
    assert_eq!(placed.entity, 5);
    assert_eq!(placed.extents, Extents { width: 2, height: 200, depth: 0 });
    assert_eq!(placed.translation, Translation { x: 2, y: 100, z: 1 });
    assert_eq!(d.pending_len(), 0);
    assert_eq!(d.editing().unwrap().shape, Shape::Box(Extents { width: 2, height: 200, depth: 0 }));
}

#[test]
fn drag_geometry_with_height() {
    let mut d = enabled_drawer();
    d.tick(&press(p(0, 0, 0), 9));
    let out = d.tick(&hold(p(2000, 0, -3000)));
    let placed = out.resized.unwrap();
    assert_eq!(placed.extents, Extents { width: 2000, height: 200, depth: 3000 });
    assert_eq!(placed.translation, Translation { x: 1000, y: 100, z: -1500 });
}

#[test]
fn release_without_mark_does_nothing() {
    let mut d = enabled_drawer();
    let out = d.tick(&release(p(1, 0, 1)));
    assert_eq!(out.action, BoxAction::Nothing);
    assert_eq!(d.pending_len(), 0);
    let next = d.tick(&quiet());
    assert!(next.delivered.is_empty());
}

#[test]
fn redraw_reports_redrawing_then_finished() {
    let mut d = enabled_drawer();
    d.tick(&request(DrawStateEvent::Redraw(77)));
    assert_eq!(d.state(), DrawingState::Idle(Some(77)));
    let target = Shape::Box(Extents { width: 500, height: 300, depth: 400 });
    let down = d.tick(&TickInput { target_shape: Some(target), ..press(p(1, 0, 1), 99) });
    assert_eq!(
        down.action,
        BoxAction::Redraw { entity: 77, extents: Extents { width: 10, height: 300, depth: 10 } }
    );
    let held = d.tick(&hold(p(4, 0, 5)));
    assert_eq!(held.delivered, vec![DrawShapeEvent::Redrawing(77)]);
    assert_eq!(held.resized.unwrap().extents, Extents { width: 3, height: 300, depth: 4 });
    let up = d.tick(&release(p(4, 0, 5)));
    assert_eq!(up.action, BoxAction::Finish(77));
    assert_eq!(d.editing(), None);
    let after = d.tick(&quiet());
    assert_eq!(after.delivered, vec![DrawShapeEvent::Finished(77)]);
}

#[test]
fn redraw_of_entity_without_shape_uses_initial_height() {
    let mut d = enabled_drawer();
    d.tick(&request(DrawStateEvent::Redraw(3)));
    let down = d.tick(&press(p(0, 0, 0), 8));
    assert_eq!(
        down.action,
        BoxAction::Redraw { entity: 3, extents: Extents { width: 10, height: 200, depth: 10 } }
    );
}

#[test]
fn disabled_drawer_ignores_all_input() {
    let mut d = ShapeDrawer::new(resources(), false);
    let inputs = vec![
        press(p(1, 0, 1), 1),
        hold(p(5, 0, 5)),
        release(p(5, 0, 5)),
        TickInput {
            touches: vec![
                TouchInput { id: 1, phase: TouchPhase::Started },
                TouchInput { id: 1, phase: TouchPhase::Moved },
            ],
            hit: Some(p(2, 0, 2)),
            ..quiet()
        },
    ];
    for input in inputs.iter() {
        let out = d.tick(input);
        assert_eq!(out.action, BoxAction::Nothing);
        assert_eq!(out.resized, None);
        assert!(out.delivered.is_empty());
        assert_eq!(d.pending_len(), 0);
        assert_eq!(d.editing(), None);
        assert_eq!(d.state(), DrawingState::Disabled);
    }
}

#[test]
fn events_wait_exactly_one_tick() {
    let mut d = enabled_drawer();
    let down = d.tick(&press(p(1, 0, 1), 11));
    assert!(down.delivered.is_empty());
    assert_eq!(d.pending_len(), 1);
    let up = d.tick(&release(p(1, 0, 1)));
    assert_eq!(up.delivered, vec![DrawShapeEvent::Spawned(11)]);
    let later = d.tick(&quiet());
    assert_eq!(later.delivered, vec![DrawShapeEvent::Finished(11)]);
    let last = d.tick(&quiet());
    assert!(last.delivered.is_empty());
}

#[test]
fn delivered_event_names_entity_of_previous_action() {
    let mut d = enabled_drawer();
    let down = d.tick(&press(p(7, 0, 7), 123));
    let spawned = match down.action {
        BoxAction::Spawn(pl) => pl.entity,
        _ => panic!("expected a spawn"),
    };
    let next = d.tick(&quiet());
    assert_eq!(next.delivered.len(), 1);
    assert_eq!(next.delivered[0].entity(), spawned);
}

#[test]
fn second_press_while_marked_keeps_single_mark() {
    let mut d = enabled_drawer();
    d.tick(&press(p(1, 0, 1), 1));
    let again = d.tick(&TickInput { just_pressed: true, pressed: true, hit: Some(p(1, 0, 1)), fresh: 2, ..quiet() });
    assert_eq!(again.action, BoxAction::Nothing);
    assert_eq!(d.editing().unwrap().entity, 1);
}

#[test]
fn degenerate_hits_are_ignored() {
    let mut d = enabled_drawer();
    d.tick(&press(p(4, 0, 4), 1));
    assert_eq!(d.tick(&hold(p(0, 0, 0))).resized, None);
    assert_eq!(d.tick(&hold(p(4, 0, 4))).resized, None);
    assert_eq!(d.tick(&TickInput { pressed: true, ..quiet() }).resized, None);
    assert!(d.tick(&hold(p(6, 0, 4))).resized.is_some());
}

#[test]
fn press_without_hit_does_nothing() {
    let mut d = enabled_drawer();
    let out = d.tick(&TickInput { just_pressed: true, pressed: true, ..quiet() });
    assert_eq!(out.action, BoxAction::Nothing);
    assert_eq!(d.editing(), None);
}

#[test]
fn state_requests_apply_from_next_tick() {
    let mut d = enabled_drawer();
    let out = d.tick(&TickInput { requests: vec![DrawStateEvent::Disable], ..press(p(1, 0, 1), 4) });
    assert!(matches!(out.action, BoxAction::Spawn(_)));
    assert_eq!(d.state(), DrawingState::Disabled);
    let up = d.tick(&release(p(1, 0, 1)));
    assert_eq!(up.action, BoxAction::Nothing);
    assert_eq!(up.delivered, vec![DrawShapeEvent::Spawned(4)]);
}

#[test]
fn always_enabled_drawer_reenables_itself() {
    let mut d = ShapeDrawer::new(resources(), true);
    d.tick(&quiet());
    assert_eq!(d.state(), DrawingState::Idle(None));
    d.tick(&request(DrawStateEvent::Disable));
    assert_eq!(d.state(), DrawingState::Disabled);
    d.tick(&quiet());
    assert_eq!(d.state(), DrawingState::Idle(None));
}

#[test]
fn always_enabled_drawer_stays_off_when_disabled_each_tick() {
    let mut d = ShapeDrawer::new(resources(), true);
    let out = d.tick(&TickInput { requests: vec![DrawStateEvent::Disable], ..press(p(1, 0, 1), 1) });
    assert_eq!(out.action, BoxAction::Nothing);
    assert_eq!(d.state(), DrawingState::Disabled);
}

#[test]
fn touch_drag_draws_a_box() {
    let mut d = enabled_drawer();
    let start = d.tick(&TickInput {
        touches: vec![TouchInput { id: 3, phase: TouchPhase::Started }],
        hit: Some(p(1, 0, 1)),
        fresh: 50,
        ..quiet()
    });
    assert_eq!(start.action, BoxAction::Nothing);
    let moved = d.tick(&TickInput {
        touches: vec![TouchInput { id: 3, phase: TouchPhase::Moved }],
        hit: Some(p(1, 0, 1)),
        fresh: 50,
        ..quiet()
    });
    assert!(matches!(moved.action, BoxAction::Spawn(pl) if pl.entity == 50));
    let dragged = d.tick(&TickInput {
        touches: vec![TouchInput { id: 3, phase: TouchPhase::Moved }],
        hit: Some(p(3, 0, 4)),
        ..quiet()
    });
    assert_eq!(dragged.resized.unwrap().extents, Extents { width: 2, height: 200, depth: 3 });
    assert_eq!(dragged.action, BoxAction::Nothing);
    let other = d.tick(&TickInput {
        touches: vec![TouchInput { id: 8, phase: TouchPhase::Ended }],
        hit: Some(p(5, 0, 5)),
        ..quiet()
    });
    assert_eq!(other.action, BoxAction::Nothing);
    assert_eq!(other.resized, None);
    let end = d.tick(&TickInput {
        touches: vec![TouchInput { id: 3, phase: TouchPhase::Ended }],
        hit: Some(p(3, 0, 4)),
        ..quiet()
    });
    assert_eq!(end.action, BoxAction::Finish(50));
}
