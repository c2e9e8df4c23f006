use vstd::prelude::*;

verus! {

/// A point or a vector in world space, each coordinate in fixed point.
#[derive(Clone, Copy, Debug, PartialEq, Eq, Structural)]
pub struct Point3 {
    pub x: i64,
    pub y: i64,
    pub z: i64,
}

impl Point3 {
    pub fn new(x: i64, y: i64, z: i64) -> (r: Point3)
        ensures
            r == (Point3 { x, y, z }),
    {
        Point3 { x, y, z }
    }

    pub fn zero() -> (r: Point3)
        ensures
            r == (Point3 { x: 0, y: 0, z: 0 }),
    {
        Point3 { x: 0, y: 0, z: 0 }
    }
}

/// Square of the Euclidean distance between two points.
pub open spec fn distance_squared(a: Point3, b: Point3) -> int {
    (a.x - b.x) * (a.x - b.x) + (a.y - b.y) * (a.y - b.y) + (a.z - b.z) * (a.z - b.z)
}

/// The distance from `a` to `b` is strictly less than `radius` (with `radius >= 0`).
pub open spec fn within(a: Point3, b: Point3, radius: int) -> bool {
    distance_squared(a, b) < radius * radius
}

proof fn lemma_square_at_least(d: int, r: int)
    requires
        0 <= r,
        d >= r || d <= -r,
    ensures
        d * d >= r * r,
{
    assert(d * d >= r * r) by (nonlinear_arith)
        requires
            0 <= r,
            d >= r || d <= -r,
    ;
}

/// Whether `b` lies strictly closer than `radius` to `a`.
pub fn is_within(a: Point3, b: Point3, radius: u32) -> (r: bool)
    ensures
        r == within(a, b, radius as int),
{
    let dx: i128 = a.x as i128 - b.x as i128;
    let dy: i128 = a.y as i128 - b.y as i128;
    let dz: i128 = a.z as i128 - b.z as i128;
    let rr: i128 = radius as i128;
    proof {
        assert(dx * dx >= 0) by (nonlinear_arith);
        assert(dy * dy >= 0) by (nonlinear_arith);
        assert(dz * dz >= 0) by (nonlinear_arith);
    }
    if dx >= rr || dx <= -rr {
        proof {
            lemma_square_at_least(dx as int, rr as int);
        }
        return false;
    }
    if dy >= rr || dy <= -rr {
        proof {
            lemma_square_at_least(dy as int, rr as int);
        }
        return false;
    }
    if dz >= rr || dz <= -rr {
        proof {
            lemma_square_at_least(dz as int, rr as int);
        }
        return false;
    }
    proof {
        assert(dx * dx <= rr * rr) by (nonlinear_arith)
            requires
                -rr < dx < rr,
        ;
        assert(dy * dy <= rr * rr) by (nonlinear_arith)
            requires
                -rr < dy < rr,
        ;
        assert(dz * dz <= rr * rr) by (nonlinear_arith)
            requires
                -rr < dz < rr,
        ;
        assert(rr * rr <= 0xffff_ffff * 0xffff_ffff) by (nonlinear_arith)
            requires
                0 <= rr <= 0xffff_ffff,
        ;
    }
    dx * dx + dy * dy + dz * dz < rr * rr
}

} // verus!
