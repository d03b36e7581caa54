use vstd::prelude::*;

verus! {

/// Fixed-point scale: one screen height is `UNIT` units.
pub const UNIT: i64 = 65536;

/// Largest magnitude of a normalized coordinate: a 32-bit pixel offset over a
/// height of one pixel.
pub const COORD_LIMIT: i64 = 140737488355328;

/// A point or a displacement, in units of `1 / UNIT` screen heights.
#[derive(Clone, Copy, Debug, PartialEq, Eq, Structural)]
pub struct Point {
    pub x: i64,
    pub y: i64,
}

/// An axis-aligned rectangle, in units of `1 / UNIT` screen heights.
#[derive(Clone, Copy, Debug, PartialEq, Eq, Structural)]
pub struct Rect {
    pub x: i64,
    pub y: i64,
    pub w: i64,
    pub h: i64,
}

/// A coordinate that a normalized pixel position can take.
pub open spec fn coord_ok(v: int) -> bool {
    -COORD_LIMIT <= v <= COORD_LIMIT
}

impl Point {
    pub open spec fn in_range(self) -> bool {
        coord_ok(self.x as int) && coord_ok(self.y as int)
    }

    /// The origin.
    pub fn zero() -> (r: Point)
        ensures
            r.x == 0 && r.y == 0,
    {
        Point { x: 0, y: 0 }
    }

    /// `self - o`, componentwise.
    pub fn minus(self, o: Point) -> (r: Point)
        requires
            self.in_range(),
            o.in_range(),
        ensures
            r.x == self.x - o.x,
            r.y == self.y - o.y,
    {
        Point { x: self.x - o.x, y: self.y - o.y }
    }
}

/// A pixel coordinate divided by the vertical resolution, in fixed point,
/// rounded toward zero.
pub open spec fn normalized(px: int, yres: int) -> int {
    if px >= 0 {
        (px * UNIT) / yres
    } else {
        -(((-px) * UNIT) / yres)
    }
}

/// The aspect ratio `xres / yres` in fixed point, rounded down.
pub open spec fn aspect_of(xres: int, yres: int) -> int {
    (xres * UNIT) / yres
}

proof fn lemma_normalized_bounds(px: int, yres: int)
    requires
        i32::MIN <= px <= i32::MAX,
        yres >= 1,
    ensures
        coord_ok(normalized(px, yres)),
{
    let m = if px >= 0 { px } else { -px };
    assert(0 <= m * UNIT <= COORD_LIMIT) by (nonlinear_arith)
        requires 0 <= m <= 2147483648int;
    assert((m * UNIT) / yres <= m * UNIT) by (nonlinear_arith)
        requires m * UNIT >= 0, yres >= 1;
    assert((m * UNIT) / yres >= 0) by (nonlinear_arith)
        requires m * UNIT >= 0, yres >= 1;
}

/// Scales a pixel coordinate by the vertical resolution.
pub fn normalize(px: i32, yres: u32) -> (r: i64)
    requires
        yres > 0,
    ensures
        r == normalized(px as int, yres as int),
        coord_ok(r as int),
{
    proof {
        lemma_normalized_bounds(px as int, yres as int);
    }
    let m: u64 = if px >= 0 { px as u64 } else { (-(px as i64)) as u64 };
    assert(m * 65536 <= 140737488355328) by (nonlinear_arith)
        requires m <= 2147483648u64;
    let q: u64 = (m * 65536) / (yres as u64);
    assert(q as int <= m * 65536) by (nonlinear_arith)
        requires yres as int >= 1, q as int == (m * 65536) / (yres as int);
    if px >= 0 {
        q as i64
    } else {
        -(q as i64)
    }
}

/// The aspect ratio of a resolution, in fixed point.
pub fn aspect(xres: u32, yres: u32) -> (r: i64)
    requires
        yres > 0,
    ensures
        r == aspect_of(xres as int, yres as int),
        r >= 0,
{
    let p: u64 = (xres as u64) * 65536;
    let q: u64 = p / (yres as u64);
    assert(q as int <= p as int) by (nonlinear_arith)
        requires yres as int >= 1, p as int >= 0, q as int == (p as int) / (yres as int);
    q as i64
}

/// The viewport of a screen with the given aspect ratio: origin at zero,
/// height one screen height.
pub fn screen_rect(aspect: i64) -> (r: Rect)
    ensures
        r == (Rect { x: 0, y: 0, w: aspect, h: UNIT }),
{
    Rect { x: 0, y: 0, w: aspect, h: UNIT }
}

} // verus!
