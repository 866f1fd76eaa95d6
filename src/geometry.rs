use vstd::prelude::*;

verus! {

/// A cursor position in window-local pixels, as handed over by the windowing
/// layer. Each coordinate is the bit pattern of the engine's single-precision
/// value: the library copies coordinates and never computes with them.
#[derive(Clone, Copy, Debug, PartialEq, Eq, Structural)]
pub struct CursorPos {
    pub x: u32,
    pub y: u32,
}

/// A position in world space, coordinates stored as in `CursorPos`.
/// `z` is the layering depth; points are always placed at depth zero.
#[derive(Clone, Copy, Debug, PartialEq, Eq, Structural)]
pub struct WorldPos {
    pub x: u32,
    pub y: u32,
    pub z: u32,
}

/// Bit pattern of the single-precision value `+0.0`.
pub const DEPTH_ZERO: u32 = 0;

/// The camera's origin sits at the window's corner, so the pixel-to-world
/// mapping is the identity on `x` and `y`, with `z` set to zero.
pub open spec fn world_of(c: CursorPos) -> WorldPos {
    WorldPos { x: c.x, y: c.y, z: DEPTH_ZERO }
}

/// Converts a cursor position to the world position of a new point.
pub fn to_world(c: CursorPos) -> (r: WorldPos)
    ensures
        r == world_of(c),
{
    WorldPos { x: c.x, y: c.y, z: DEPTH_ZERO }
}

} // verus!
