//! How the drawing tool is embedded in an application.

use vstd::prelude::*;

verus! {

/// Marks the rays and surfaces that the drawing tool casts and hits.
#[derive(Clone, Copy, Debug, PartialEq, Eq, Structural)]
pub struct ShapeDrawRaycastSet;

/// The settings of the drawing tool in an application.
#[derive(Clone, Copy, Debug, PartialEq, Eq, Structural)]
pub struct DrawShapePlugin {
    /// Re-enable drawing whenever it is found disabled.
    pub always_enabled: bool,
    /// Answer drawing board requests.
    pub enable_drawingboard: bool,
}

/// The settings of the drawing tool with a debug cursor on its rays.
#[derive(Clone, Copy, Debug, PartialEq, Eq, Structural)]
pub struct DrawShapeDebugPlugin {
    /// Re-enable drawing whenever it is found disabled.
    pub always_enabled: bool,
    /// Answer drawing board requests.
    pub enable_drawingboard: bool,
}

impl Default for DrawShapePlugin {
    /// Drawing is kept enabled and the drawing board is on.
    fn default() -> (r: DrawShapePlugin)
        ensures
            r.always_enabled,
            r.enable_drawingboard,
    {
        DrawShapePlugin { always_enabled: true, enable_drawingboard: true }
    }
}

impl Default for DrawShapeDebugPlugin {
    /// Drawing is kept enabled and the drawing board is on.
    fn default() -> (r: DrawShapeDebugPlugin)
        ensures
            r.always_enabled,
            r.enable_drawingboard,
    {
        DrawShapeDebugPlugin { always_enabled: true, enable_drawingboard: true }
    }
}

} // verus!
