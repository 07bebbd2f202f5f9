//! Drawing and reshaping axis-aligned boxes on a surface with a pointer.
//!
//! The library is the decision core of a box-drawing tool: which pointer
//! signals start, continue and end a drag, how the hit point on the drawing
//! surface turns into a box's extents and position, and which lifecycle events
//! reach observers, one tick after the change they describe.
//!
//! Coordinates are fixed-point integers: the embedding scene scales its world
//! units into them before calling in and back when applying the results.
//! Entities are named by the integer bits of the scene's entity handles.

pub mod board;
pub mod drawer;
pub mod events;
pub mod geometry;
pub mod guarantees;
pub mod plugin;
pub mod pointer;
pub mod state;

pub use board::{BoardAction, Drawingboard, DrawingboardEvent};
pub use drawer::{
    BoxAction, BoxDrawResources, Editing, Placement, ShapeDrawer, TickInput, TickOutput,
};
pub use events::{DrawShapeEvent, EventQueue};
pub use geometry::{Extents, Point, Shape, Translation, UNITS_PER_WORLD_UNIT};
pub use plugin::{DrawShapeDebugPlugin, DrawShapePlugin, ShapeDrawRaycastSet};
pub use pointer::{PointerSignals, TouchInput, TouchPhase, TouchTracker};
pub use state::{DrawStateEvent, DrawingState};
