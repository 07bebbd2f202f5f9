//! The box editor: one tick of drawing, from pointer input and the surface
//! hit to box changes and lifecycle events.

use vstd::prelude::*;

use crate::events::{DrawShapeEvent, EventQueue};
use crate::geometry::{
    is_degenerate, is_world_origin, place_translation, placed_translation, span_extents,
    span_translation, spanned_extents, spanned_translation, Extents, Point, Shape, Translation,
};
use crate::pointer::{
    continues_drag, touch_continues, track_all, unify, PointerSignals, TouchInput, TouchTracker,
};
use crate::state::{apply_request, draw_state, keep_enabled, state_after, DrawStateEvent, DrawingState};

verus! {

/// The sizes a new box starts with.
#[derive(Clone, Copy, Debug, PartialEq, Eq, Structural)]
pub struct BoxDrawResources {
    /// Width and depth of a new box, until a drag gives it its own.
    pub initial_size: u32,
    /// Height of a new box.
    pub initial_height: u32,
}

impl BoxDrawResources {
    /// A hundredth of a world unit wide and deep, a fifth high.
    pub open spec fn standard() -> BoxDrawResources {
        BoxDrawResources { initial_size: 10, initial_height: 200 }
    }
}

impl Default for BoxDrawResources {
    fn default() -> (r: BoxDrawResources)
        ensures
            r == BoxDrawResources::standard(),
    {
        BoxDrawResources { initial_size: 10, initial_height: 200 }
    }
}

/// The mark on the one entity being drawn: its entity, the corner where the
/// drag began, and its current shape.
#[derive(Clone, Copy, Debug, PartialEq, Eq, Structural)]
pub struct Editing {
    pub entity: u64,
    pub origin: Point,
    pub shape: Shape,
}

/// Where a box stands and how large it is.
#[derive(Clone, Copy, Debug, PartialEq, Eq, Structural)]
pub struct Placement {
    pub entity: u64,
    pub extents: Extents,
    pub translation: Translation,
}

/// What the scene is to do for a pointer press or release.
#[derive(Clone, Copy, Debug, PartialEq, Eq, Structural)]
pub enum BoxAction {
    Nothing,
    /// Create the entity with a box of these extents at this translation.
    Spawn(Placement),
    /// Give the existing entity a box of these extents, where it stands.
    Redraw { entity: u64, extents: Extents },
    /// Take the editing mark off the entity.
    Finish(u64),
}

/// What one tick reads from the outside.
pub struct TickInput {
    /// The left mouse button went down this tick.
    pub just_pressed: bool,
    /// The left mouse button went up this tick.
    pub just_released: bool,
    /// The left mouse button is down.
    pub pressed: bool,
    /// The tick's touch events, in order.
    pub touches: Vec<TouchInput>,
    /// Where the pointer's ray meets a drawing surface, if it does.
    pub hit: Option<Point>,
    /// The shape the scene holds for the entity that the drawing state names
    /// for redrawing, if it holds one.
    pub target_shape: Option<Shape>,
    /// The entity that the scene gives a box created in this tick.
    pub fresh: u64,
    /// The tick's requests to change the drawing state, in order.
    pub requests: Vec<DrawStateEvent>,
}

/// What one tick hands back to the scene.
pub struct TickOutput {
    /// The events enqueued in the previous tick, first enqueued first.
    pub delivered: Vec<DrawShapeEvent>,
    /// The new extents and translation of the box being dragged, if they changed.
    pub resized: Option<Placement>,
    /// What the press or release of this tick asks of the scene.
    pub action: BoxAction,
}

/// A tick's input as the contracts see it.
pub struct TickInputModel {
    pub just_pressed: bool,
    pub just_released: bool,
    pub pressed: bool,
    pub touches: Seq<TouchInput>,
    pub hit: Option<Point>,
    pub target_shape: Option<Shape>,
    pub fresh: u64,
    pub requests: Seq<DrawStateEvent>,
}

/// A tick's output as the contracts see it.
pub struct TickOutputModel {
    pub delivered: Seq<DrawShapeEvent>,
    pub resized: Option<Placement>,
    pub action: BoxAction,
}

/// The whole state of the drawing core between ticks.
pub struct DrawerModel {
    pub resources: BoxDrawResources,
    pub always_enabled: bool,
    pub state: DrawingState,
    pub touch: TouchTracker,
    pub pending: Seq<DrawShapeEvent>,
    pub editing: Option<Editing>,
}

impl View for TickInput {
    type V = TickInputModel;

    open spec fn view(&self) -> TickInputModel {
        TickInputModel {
            just_pressed: self.just_pressed,
            just_released: self.just_released,
            pressed: self.pressed,
            touches: self.touches@,
            hit: self.hit,
            target_shape: self.target_shape,
            fresh: self.fresh,
            requests: self.requests@,
        }
    }
}

impl View for TickOutput {
    type V = TickOutputModel;

    open spec fn view(&self) -> TickOutputModel {
        TickOutputModel { delivered: self.delivered@, resized: self.resized, action: self.action }
    }
}

/// The entity a scene action is about.
pub open spec fn action_entity(a: BoxAction) -> Option<u64> {
    match a {
        BoxAction::Nothing => None,
        BoxAction::Spawn(p) => Some(p.entity),
        BoxAction::Redraw { entity, .. } => Some(entity),
        BoxAction::Finish(e) => Some(e),
    }
}

/// The lifecycle events that announce a scene action.
pub open spec fn announced(a: BoxAction) -> Seq<DrawShapeEvent> {
    match a {
        BoxAction::Nothing => Seq::empty(),
        BoxAction::Spawn(p) => seq![DrawShapeEvent::Spawned(p.entity)],
        BoxAction::Redraw { entity, .. } => seq![DrawShapeEvent::Redrawing(entity)],
        BoxAction::Finish(e) => seq![DrawShapeEvent::Finished(e)],
    }
}

/// The entities that carry the editing mark.
pub open spec fn marked(editing: Option<Editing>) -> Set<u64> {
    match editing {
        Some(ed) => set![ed.entity],
        None => Set::empty(),
    }
}

/// The drag's new box when the pointer is over `hit`: nothing when the drag
/// is not going on, nothing is marked, there is no hit, or the hit is
/// degenerate; else the box spanned from the origin to the hit, its height kept.
pub open spec fn dragged(editing: Option<Editing>, going_on: bool, hit: Option<Point>) -> Option<Placement> {
    match (editing, hit) {
        (Some(ed), Some(p)) => if going_on && !(is_world_origin(p) || p == ed.origin) {
            Some(Placement {
                entity: ed.entity,
                extents: spanned_extents(ed.origin, p, ed.shape.extents().height),
                translation: spanned_translation(ed.origin, p, ed.shape.extents().height),
            })
        } else {
            None
        },
        _ => None,
    }
}

/// The editing mark after the drag step.
pub open spec fn after_drag(editing: Option<Editing>, resized: Option<Placement>) -> Option<Editing> {
    match (editing, resized) {
        (Some(ed), Some(r)) => Some(Editing { entity: ed.entity, origin: ed.origin, shape: Shape::Box(r.extents) }),
        _ => editing,
    }
}

/// The height of a box begun now: a redrawn box keeps the height of the
/// shape it has, any other gets the initial height.
pub open spec fn press_height(res: BoxDrawResources, target: Option<u64>, target_shape: Option<Shape>) -> u32 {
    match (target, target_shape) {
        (Some(_), Some(s)) => s.extents().height,
        _ => res.initial_height,
    }
}

/// The extents of a box begun now.
pub open spec fn press_extents(res: BoxDrawResources, target: Option<u64>, target_shape: Option<Shape>) -> Extents {
    Extents {
        width: res.initial_size,
        height: press_height(res, target, target_shape),
        depth: res.initial_size,
    }
}

/// What a press or release does to the editing mark and asks of the scene.
///
/// A press over a hit, with no entity marked, marks the target (a fresh
/// entity for a new box) with the hit as origin and gives it the initial
/// extents. A release takes the mark off the marked entity, if any. A press
/// with no hit, or while an entity is marked, does nothing; so does a
/// release in the tick of a press.
pub open spec fn gesture(
    res: BoxDrawResources,
    target: Option<u64>,
    editing: Option<Editing>,
    signals: PointerSignals,
    hit: Option<Point>,
    target_shape: Option<Shape>,
    fresh: u64,
) -> (Option<Editing>, BoxAction) {
    if signals.started {
        match (editing, hit) {
            (None, Some(p)) => {
                let ext = press_extents(res, target, target_shape);
                match target {
                    None => (
                        Some(Editing { entity: fresh, origin: p, shape: Shape::Box(ext) }),
                        BoxAction::Spawn(Placement { entity: fresh, extents: ext, translation: placed_translation(p, ext) }),
                    ),
                    Some(e) => (
                        Some(Editing { entity: e, origin: p, shape: Shape::Box(ext) }),
                        BoxAction::Redraw { entity: e, extents: ext },
                    ),
                }
            },
            _ => (editing, BoxAction::Nothing),
        }
    } else if signals.ended {
        match editing {
            Some(ed) => (None, BoxAction::Finish(ed.entity)),
            None => (None, BoxAction::Nothing),
        }
    } else {
        (editing, BoxAction::Nothing)
    }
}

/// The requests handled at the end of a tick: the caller's, after an
/// `Enable` when drawing is kept enabled and was found disabled.
pub open spec fn effective_requests(d: DrawerModel, i: TickInputModel) -> Seq<DrawStateEvent> {
    if d.always_enabled && d.state.is_disabled() {
        seq![DrawStateEvent::Enable] + i.requests
    } else {
        i.requests
    }
}

/// One tick.
///
/// The events of the previous tick are delivered first. Then, unless drawing
/// is disabled, the marked box follows the drag, the pointer signals are
/// worked out, and a press or release acts; its event waits for the next
/// tick. Last, the state requests are handled: they take effect from the
/// next tick on.
pub open spec fn step(d: DrawerModel, i: TickInputModel) -> (DrawerModel, TickOutputModel) {
    let state = state_after(d.state, effective_requests(d, i));
    match d.state {
        DrawingState::Disabled => (
            DrawerModel { state, pending: Seq::empty(), ..d },
            TickOutputModel { delivered: d.pending, resized: None, action: BoxAction::Nothing },
        ),
        DrawingState::Idle(target) => {
            let resized = dragged(d.editing, i.pressed || touch_continues(d.touch.id, i.touches), i.hit);
            let editing = after_drag(d.editing, resized);
            let (touch, signals) = track_all(
                d.touch,
                PointerSignals { started: i.just_pressed, ended: i.just_released },
                i.touches,
            );
            let (editing, action) = gesture(d.resources, target, editing, signals, i.hit, i.target_shape, i.fresh);
            (
                DrawerModel { state, touch, pending: announced(action), editing, ..d },
                TickOutputModel { delivered: d.pending, resized, action },
            )
        },
    }
}

/// The drawing core: the drawing state, the followed touch, the editing mark
/// and the events waiting for the next tick.
pub struct ShapeDrawer {
    resources: BoxDrawResources,
    always_enabled: bool,
    state: DrawingState,
    touch: TouchTracker,
    queue: EventQueue,
    editing: Option<Editing>,
}

impl View for ShapeDrawer {
    type V = DrawerModel;

    closed spec fn view(&self) -> DrawerModel {
        DrawerModel {
            resources: self.resources,
            always_enabled: self.always_enabled,
            state: self.state,
            touch: self.touch,
            pending: self.queue@,
            editing: self.editing,
        }
    }
}

/// The marked box after the drag step of a tick, and its new placement.
fn drag(editing: &mut Option<Editing>, going_on: bool, hit: Option<Point>) -> (r: Option<Placement>)
    ensures
        r == dragged(*old(editing), going_on, hit),
        *final(editing) == after_drag(*old(editing), r),
{
    if !going_on {
        return None;
    }
    match (*editing, hit) {
        (Some(ed), Some(p)) => {
            if is_degenerate(&ed.origin, &p) {
                return None;
            }
            let height = ed.shape.dimensions().height;
            let extents = span_extents(&ed.origin, &p, height);
            let translation = span_translation(&ed.origin, &p, height);
            *editing = Some(Editing { entity: ed.entity, origin: ed.origin, shape: Shape::Box(extents) });
            Some(Placement { entity: ed.entity, extents, translation })
        },
        _ => None,
    }
}

/// The press or release of a tick.
fn act(
    res: &BoxDrawResources,
    target: Option<u64>,
    editing: &mut Option<Editing>,
    signals: PointerSignals,
    hit: Option<Point>,
    target_shape: Option<Shape>,
    fresh: u64,
) -> (r: BoxAction)
    ensures
        (*final(editing), r) == gesture(*res, target, *old(editing), signals, hit, target_shape, fresh),
{
    if signals.started {
        match (*editing, hit) {
            (None, Some(p)) => {
                let height = match (target, target_shape) {
                    (Some(_), Some(s)) => s.dimensions().height,
                    _ => res.initial_height,
                };
                let extents = Extents { width: res.initial_size, height, depth: res.initial_size };
                match target {
                    None => {
                        *editing = Some(Editing { entity: fresh, origin: p, shape: Shape::Box(extents) });
                        BoxAction::Spawn(Placement {
                            entity: fresh,
                            extents,
                            translation: place_translation(&p, &extents),
                        })
                    },
                    Some(e) => {
                        *editing = Some(Editing { entity: e, origin: p, shape: Shape::Box(extents) });
                        BoxAction::Redraw { entity: e, extents }
                    },
                }
            },
            _ => BoxAction::Nothing,
        }
    } else if signals.ended {
        match *editing {
            Some(ed) => {
                *editing = None;
                BoxAction::Finish(ed.entity)
            },
            None => BoxAction::Nothing,
        }
    } else {
        BoxAction::Nothing
    }
}

impl ShapeDrawer {
    /// A core that starts disabled, follows no touch, marks nothing and holds
    /// no event.
    pub fn new(resources: BoxDrawResources, always_enabled: bool) -> (r: ShapeDrawer)
        ensures
            r@ == (DrawerModel {
                resources,
                always_enabled,
                state: DrawingState::initial(),
                touch: TouchTracker::idle(),
                pending: Seq::empty(),
                editing: None,
            }),
    {
        ShapeDrawer {
            resources,
            always_enabled,
            state: DrawingState::Disabled,
            touch: TouchTracker::new(),
            queue: EventQueue::new(),
            editing: None,
        }
    }

    /// Runs one tick.
    pub fn tick(&mut self, input: &TickInput) -> (r: TickOutput)
        ensures
            (final(self)@, r@) == step(old(self)@, input@),
    {
        let delivered = self.queue.flush();
        let mut resized: Option<Placement> = None;
        let mut action = BoxAction::Nothing;
        if let DrawingState::Idle(target) = self.state {
            let going_on = continues_drag(input.pressed, self.touch.id, &input.touches);
            resized = drag(&mut self.editing, going_on, input.hit);
            let signals = unify(&mut self.touch, input.just_pressed, input.just_released, &input.touches);
            action = act(
                &self.resources,
                target,
                &mut self.editing,
                signals,
                input.hit,
                input.target_shape,
                input.fresh,
            );
            match action {
                BoxAction::Nothing => {},
                BoxAction::Spawn(p) => self.queue.enqueue(DrawShapeEvent::Spawned(p.entity)),
                BoxAction::Redraw { entity, .. } => self.queue.enqueue(DrawShapeEvent::Redrawing(entity)),
                BoxAction::Finish(e) => self.queue.enqueue(DrawShapeEvent::Finished(e)),
            }
        }
        if self.always_enabled {
            if let Some(req) = keep_enabled(&self.state) {
                apply_request(&mut self.state, req);
            }
        }
        draw_state(&mut self.state, &input.requests);
        let out = TickOutput { delivered, resized, action };
        proof {
            assert(self.queue@ =~= announced(action));
        }
        out
    }

    /// The drawing state.
    pub fn state(&self) -> (r: DrawingState)
        ensures
            r == self@.state,
    {
        self.state
    }

    /// The entity being drawn, with the corner its drag began at and its shape.
    pub fn editing(&self) -> (r: Option<Editing>)
        ensures
            r == self@.editing,
    {
        self.editing
    }

    /// The number of events waiting for the next tick.
    pub fn pending_len(&self) -> (r: usize)
        ensures
            r == self@.pending.len(),
    {
        self.queue.len()
    }
}

} // verus!
