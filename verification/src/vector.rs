//! Fixed-point plane geometry: positions, velocities and the arithmetic that
//! every entity uses to move and to test for overlap.

use vstd::prelude::*;

verus! {

/// Coordinate units in one pixel.
pub const UNITS_PER_PIXEL: i64 = 1000;

/// Microseconds in one second.
pub const MICROS_PER_SECOND: u64 = 1_000_000;

/// The nearest value of the coordinate range to `v`.
pub open spec fn saturate(v: int) -> int {
    if v < i64::MIN {
        i64::MIN as int
    } else if v > i64::MAX {
        i64::MAX as int
    } else {
        v
    }
}

/// Distance covered in `delta_us` microseconds at `velocity` units per second,
/// rounded towards zero.
pub open spec fn displacement(velocity: int, delta_us: int) -> int {
    if velocity >= 0 {
        velocity * delta_us / 1_000_000
    } else {
        -((-velocity) * delta_us / 1_000_000)
    }
}

/// `v` raised to at least `lo` and then lowered to at most `hi`. Where `lo`
/// exceeds `hi` the result is `hi`.
pub open spec fn clamp_between(v: int, lo: int, hi: int) -> int {
    let raised = if v < lo {
        lo
    } else {
        v
    };
    if raised > hi {
        hi
    } else {
        raised
    }
}

/// Whether two positions are within `radius` of each other on both axes.
pub open spec fn overlapping(a: Vector2, b: Vector2, radius: u32) -> bool {
    &&& -(radius as int) <= a.x - b.x <= radius as int
    &&& -(radius as int) <= a.y - b.y <= radius as int
}

/// A point or a velocity in the plane: `x` grows to the right, `y` downwards,
/// and the origin is the top-left corner of the viewport.
#[derive(Clone, Copy, Debug, PartialEq, Eq, Structural)]
pub struct Vector2 {
    pub x: i64,
    pub y: i64,
}

/// Computes [`displacement`] without losing range.
pub fn travel(velocity: i64, delta_us: u32) -> (d: i128)
    ensures
        d == displacement(velocity as int, delta_us as int),
        -0x8000_0000_0000_0000 * 0x1_0000_0000 <= d <= 0x8000_0000_0000_0000 * 0x1_0000_0000,
{
    let dt: u128 = delta_us as u128;
    if velocity >= 0 {
        let mag: u128 = velocity as u128;
        assert(mag * dt <= 0x8000_0000_0000_0000 * 0x1_0000_0000) by (nonlinear_arith)
            requires
                mag <= 0x8000_0000_0000_0000,
                dt <= 0x1_0000_0000,
        ;
        let covered: u128 = mag * dt / 1_000_000;
        covered as i128
    } else {
        let mag: u128 = (-(velocity as i128)) as u128;
        assert(mag * dt <= 0x8000_0000_0000_0000 * 0x1_0000_0000) by (nonlinear_arith)
            requires
                mag <= 0x8000_0000_0000_0000,
                dt <= 0x1_0000_0000,
        ;
        let covered: u128 = mag * dt / 1_000_000;
        -(covered as i128)
    }
}

/// Brings a wide intermediate result back into the coordinate range.
pub fn saturate_coord(v: i128) -> (r: i64)
    ensures
        r == saturate(v as int),
{
    if v < i64::MIN as i128 {
        i64::MIN
    } else if v > i64::MAX as i128 {
        i64::MAX
    } else {
        v as i64
    }
}

/// One coordinate after moving for `delta_us` microseconds at `velocity`.
pub fn advance_coord(x: i64, velocity: i64, delta_us: u32) -> (r: i64)
    ensures
        r == saturate(x + displacement(velocity as int, delta_us as int)),
{
    let d: i128 = travel(velocity, delta_us);
    saturate_coord(x as i128 + d)
}

/// Limits one coordinate to the interval from `lo` to `hi`.
pub fn clamp_coord(v: i64, lo: i64, hi: i64) -> (r: i64)
    ensures
        r == clamp_between(v as int, lo as int, hi as int),
        lo <= hi ==> lo <= r <= hi,
{
    let raised: i64 = if v < lo {
        lo
    } else {
        v
    };
    if raised > hi {
        hi
    } else {
        raised
    }
}

impl Vector2 {
    /// The vector with the given components, in coordinate units.
    pub fn new(x: i64, y: i64) -> (v: Vector2)
        ensures
            v.x == x,
            v.y == y,
    {
        Vector2 { x, y }
    }

    /// The vector with the given components, in whole pixels.
    pub fn from_pixels(x: i32, y: i32) -> (v: Vector2)
        ensures
            v.x == x * UNITS_PER_PIXEL,
            v.y == y * UNITS_PER_PIXEL,
    {
        Vector2 { x: x as i64 * UNITS_PER_PIXEL, y: y as i64 * UNITS_PER_PIXEL }
    }

    /// The sum of two vectors, each component kept inside the coordinate range.
    pub open spec fn spec_plus(self, other: Vector2) -> Vector2 {
        Vector2 { x: saturate(self.x + other.x) as i64, y: saturate(self.y + other.y) as i64 }
    }

    /// Adds `other` to this vector.
    pub fn plus(self, other: Vector2) -> (v: Vector2)
        ensures
            v == self.spec_plus(other),
    {
        Vector2 {
            x: saturate_coord(self.x as i128 + other.x as i128),
            y: saturate_coord(self.y as i128 + other.y as i128),
        }
    }

    /// The difference of two vectors, each component kept inside the coordinate range.
    pub open spec fn spec_minus(self, other: Vector2) -> Vector2 {
        Vector2 { x: saturate(self.x - other.x) as i64, y: saturate(self.y - other.y) as i64 }
    }

    /// Subtracts `other` from this vector.
    pub fn minus(self, other: Vector2) -> (v: Vector2)
        ensures
            v == self.spec_minus(other),
    {
        Vector2 {
            x: saturate_coord(self.x as i128 - other.x as i128),
            y: saturate_coord(self.y as i128 - other.y as i128),
        }
    }

    /// The position reached from here after `delta_us` microseconds at `velocity`.
    pub open spec fn spec_advanced(self, velocity: Vector2, delta_us: u32) -> Vector2 {
        Vector2 {
            x: saturate(self.x + displacement(velocity.x as int, delta_us as int)) as i64,
            y: saturate(self.y + displacement(velocity.y as int, delta_us as int)) as i64,
        }
    }

    /// Moves this position for `delta_us` microseconds at `velocity`.
    pub fn advanced(self, velocity: Vector2, delta_us: u32) -> (v: Vector2)
        ensures
            v == self.spec_advanced(velocity, delta_us),
    {
        Vector2 {
            x: advance_coord(self.x, velocity.x, delta_us),
            y: advance_coord(self.y, velocity.y, delta_us),
        }
    }

    /// This vector with each component limited by the same component of `min`
    /// and `max`.
    pub open spec fn spec_clamp(self, min: Vector2, max: Vector2) -> Vector2 {
        Vector2 {
            x: clamp_between(self.x as int, min.x as int, max.x as int) as i64,
            y: clamp_between(self.y as int, min.y as int, max.y as int) as i64,
        }
    }

    /// Limits each component to the interval that `min` and `max` give for it.
    pub fn clamp(self, min: Vector2, max: Vector2) -> (v: Vector2)
        ensures
            v == self.spec_clamp(min, max),
            min.x <= max.x && min.y <= max.y ==> v.spec_within(min, max),
    {
        Vector2 { x: clamp_coord(self.x, min.x, max.x), y: clamp_coord(self.y, min.y, max.y) }
    }

    /// Whether each component lies between those of `min` and `max`.
    pub open spec fn spec_within(self, min: Vector2, max: Vector2) -> bool {
        &&& min.x <= self.x <= max.x
        &&& min.y <= self.y <= max.y
    }

    /// Tests whether each component lies between those of `min` and `max`.
    pub fn within(self, min: Vector2, max: Vector2) -> (b: bool)
        ensures
            b == self.spec_within(min, max),
    {
        min.x <= self.x && self.x <= max.x && min.y <= self.y && self.y <= max.y
    }

    /// Tests whether `other` is within `radius` of this position on both axes.
    pub fn overlaps(self, other: Vector2, radius: u32) -> (b: bool)
        ensures
            b == overlapping(self, other, radius),
    {
        let dx: i128 = self.x as i128 - other.x as i128;
        let dy: i128 = self.y as i128 - other.y as i128;
        let r: i128 = radius as i128;
        -r <= dx && dx <= r && -r <= dy && dy <= r
    }
}

} // verus!
