//! Box geometry on fixed-point coordinates.

use vstd::prelude::*;

verus! {

/// The number of fixed-point units in one world unit: coordinates and
/// lengths are held in thousandths.
pub const UNITS_PER_WORLD_UNIT: i32 = 1000;

/// A point in world space, in the library's fixed-point unit.
#[derive(Clone, Copy, Debug, PartialEq, Eq, Structural)]
pub struct Point {
    pub x: i32,
    pub y: i32,
    pub z: i32,
}

/// The extents of a box along the three axes, in the fixed-point unit.
#[derive(Clone, Copy, Debug, PartialEq, Eq, Structural)]
pub struct Extents {
    pub width: u32,
    pub height: u32,
    pub depth: u32,
}

/// The centre of a box, in the fixed-point unit.
///
/// A centre lies half a box away from a corner, so it may leave the range of a
/// [`Point`]'s coordinates; it is held at a wider type.
#[derive(Clone, Copy, Debug, PartialEq, Eq, Structural)]
pub struct Translation {
    pub x: i64,
    pub y: i64,
    pub z: i64,
}

/// The shape recorded on every drawn entity.
#[derive(Clone, Copy, Debug, PartialEq, Eq, Structural)]
pub enum Shape {
    Box(Extents),
}

/// Half of `v`, rounded towards negative infinity.
pub open spec fn half(v: int) -> int {
    v / 2
}

/// The absolute value of `v`.
pub open spec fn abs(v: int) -> int {
    if v < 0 { -v } else { v }
}

/// The world origin, which the surface query also reports when it found nothing.
pub open spec fn is_world_origin(p: Point) -> bool {
    p.x == 0 && p.y == 0 && p.z == 0
}

/// The extents of a box whose corners on the horizontal plane are `origin`
/// and `opposite`, with the given height.
pub open spec fn spanned_extents(origin: Point, opposite: Point, height: u32) -> Extents {
    Extents {
        width: abs(opposite.x - origin.x) as u32,
        height,
        depth: abs(opposite.z - origin.z) as u32,
    }
}

/// The centre of the box between `origin` and `opposite`: halfway between
/// them on the horizontal plane, and half its height above `opposite`.
pub open spec fn spanned_translation(origin: Point, opposite: Point, height: u32) -> Translation {
    Translation {
        x: (opposite.x - half(opposite.x - origin.x)) as i64,
        y: (opposite.y + half(height as int)) as i64,
        z: (opposite.z - half(opposite.z - origin.z)) as i64,
    }
}

/// The centre of a fresh box of the given extents whose lowest corner is `corner`.
pub open spec fn placed_translation(corner: Point, shape: Extents) -> Translation {
    Translation {
        x: (corner.x + half(shape.width as int)) as i64,
        y: (corner.y + half(shape.height as int)) as i64,
        z: (corner.z + half(shape.depth as int)) as i64,
    }
}

impl Shape {
    /// The box's extents.
    pub open spec fn extents(self) -> Extents {
        match self {
            Shape::Box(e) => e,
        }
    }

    /// The box's extents.
    pub fn dimensions(&self) -> (r: Extents)
        ensures
            r == self.extents(),
    {
        match self {
            Shape::Box(e) => *e,
        }
    }
}

/// Half of `v`, rounded towards negative infinity.
pub fn halve(v: i64) -> (r: i64)
    ensures
        r == half(v as int),
{
    if v >= 0 {
        v / 2
    } else {
        let m: i64 = -(v + 1);
        -(m / 2) - 1
    }
}

/// The distance between two coordinates.
fn distance(a: i32, b: i32) -> (r: u32)
    ensures
        r as int == abs(b - a),
{
    let d: i64 = b as i64 - a as i64;
    if d < 0 {
        (-d) as u32
    } else {
        d as u32
    }
}

/// Whether a hit point adds nothing to a drag that began at `origin`: it is
/// the world origin, or the origin itself.
pub fn is_degenerate(origin: &Point, hit: &Point) -> (r: bool)
    ensures
        r == (is_world_origin(*hit) || *hit == *origin),
{
    (hit.x == 0 && hit.y == 0 && hit.z == 0) || *hit == *origin
}

/// The extents of the box spanned from `origin` to `opposite`, keeping `height`.
pub fn span_extents(origin: &Point, opposite: &Point, height: u32) -> (r: Extents)
    ensures
        r == spanned_extents(*origin, *opposite, height),
{
    Extents {
        width: distance(origin.x, opposite.x),
        height,
        depth: distance(origin.z, opposite.z),
    }
}

/// The centre of the box spanned from `origin` to `opposite` with the given height.
pub fn span_translation(origin: &Point, opposite: &Point, height: u32) -> (r: Translation)
    ensures
        r == spanned_translation(*origin, *opposite, height),
{
    let dx: i64 = opposite.x as i64 - origin.x as i64;
    let dz: i64 = opposite.z as i64 - origin.z as i64;
    Translation {
        x: opposite.x as i64 - halve(dx),
        y: opposite.y as i64 + halve(height as i64),
        z: opposite.z as i64 - halve(dz),
    }
}

/// The centre of a fresh box of extents `shape` whose lowest corner is `corner`.
pub fn place_translation(corner: &Point, shape: &Extents) -> (r: Translation)
    ensures
        r == placed_translation(*corner, *shape),
{
    Translation {
        x: corner.x as i64 + halve(shape.width as i64),
        y: corner.y as i64 + halve(shape.height as i64),
        z: corner.z as i64 + halve(shape.depth as i64),
    }
}

} // verus!
