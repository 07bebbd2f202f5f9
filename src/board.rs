//! The drawing board: one large flat surface to draw on, spawned and
//! despawned on request.

use vstd::prelude::*;

use crate::geometry::Point;

verus! {

/// Marks the drawing board entity.
#[derive(Clone, Copy, Debug, PartialEq, Eq, Structural)]
pub struct Drawingboard;

/// A request for the drawing board.
#[derive(Clone, Copy, Debug, PartialEq, Eq, Structural)]
pub enum DrawingboardEvent {
    /// Spawn the board at this height, in the fixed-point unit.
    Spawn(i32),
    Despawn,
}

/// What the scene is to do with the drawing board.
#[derive(Clone, Copy, Debug, PartialEq, Eq, Structural)]
pub enum BoardAction {
    /// Create the board centred at this point.
    Spawn(Point),
    /// Remove the board.
    Despawn,
}

/// One request applied to whether a board stands. A board is spawned only
/// where none stands and a camera gives its place: below the camera, at the
/// requested height, with both horizontal coordinates taken from the
/// camera's x coordinate. A board is despawned only where one stands.
pub open spec fn board_step(present: bool, camera: Option<Point>, ev: DrawingboardEvent) -> (bool, Option<BoardAction>) {
    match ev {
        DrawingboardEvent::Spawn(y) => if present {
            (true, None)
        } else {
            match camera {
                Some(c) => (true, Some(BoardAction::Spawn(Point { x: c.x, y, z: c.x }))),
                None => (false, None),
            }
        },
        DrawingboardEvent::Despawn => if present {
            (false, Some(BoardAction::Despawn))
        } else {
            (false, None)
        },
    }
}

/// The requests applied in order: whether a board stands after them, and the
/// actions they ask for.
pub open spec fn board_plan(present: bool, camera: Option<Point>, evs: Seq<DrawingboardEvent>) -> (bool, Seq<BoardAction>)
    decreases evs.len(),
{
    if evs.len() == 0 {
        (present, Seq::empty())
    } else {
        let prev = board_plan(present, camera, evs.drop_last());
        let (now, act) = board_step(prev.0, camera, evs.last());
        (now, match act {
            Some(a) => prev.1.push(a),
            None => prev.1,
        })
    }
}

/// The actions that the tick's board requests ask for, given whether a board
/// stands and where the camera is.
pub fn plan_drawingboard(present: bool, camera: Option<Point>, events: &Vec<DrawingboardEvent>) -> (r: Vec<BoardAction>)
    ensures
        r@ == board_plan(present, camera, events@).1,
{
    let mut actions: Vec<BoardAction> = Vec::new();
    let mut standing = present;
    let n = events.len();
    let mut i: usize = 0;
    while i < n
        invariant
            n == events@.len(),
            i <= n,
            (standing, actions@) == board_plan(present, camera, events@.take(i as int)),
        decreases n - i,
    {
        match events[i] {
            DrawingboardEvent::Spawn(y) => {
                if !standing {
                    if let Some(c) = camera {
                        actions.push(BoardAction::Spawn(Point { x: c.x, y, z: c.x }));
                        standing = true;
                    }
                }
            },
            DrawingboardEvent::Despawn => {
                if standing {
                    actions.push(BoardAction::Despawn);
                    standing = false;
                }
            },
        }
        proof {
            assert(events@.take(i + 1).drop_last() =~= events@.take(i as int));
            assert(events@.take(i + 1).last() == events@[i as int]);
        }
        i = i + 1;
    }
    assert(events@.take(n as int) =~= events@);
    actions
}

} // verus!
