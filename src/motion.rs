use vstd::prelude::*;

use crate::geometry::Point3;

verus! {

/// Microseconds in one second.
pub const MICROS_PER_SECOND: i128 = 1_000_000;

/// A vertical extent larger than this (5 units) makes a platform move along Y.
pub const VERTICAL_THRESHOLD: i64 = 50000;

/// Sign of a moving platform's current travel.
#[derive(Clone, Copy, Debug, PartialEq, Eq, Structural)]
pub enum Direction {
    /// Towards `end_pos` (`+1`).
    Forward,
    /// Towards `start_pos` (`-1`).
    Backward,
}

/// A platform oscillating between two points at constant speed.
#[derive(Clone, Copy, Debug, PartialEq, Eq, Structural)]
pub struct MovingPlatform {
    /// Where the platform currently is.
    pub position: Point3,
    pub start_pos: Point3,
    pub end_pos: Point3,
    /// Edge lengths of the platform's box.
    pub size: Point3,
    /// Fixed-point units per second.
    pub speed: i64,
    pub direction: Direction,
}

/// The platform moves along Y (rather than X).
pub open spec fn is_vertical(p: MovingPlatform) -> bool {
    p.end_pos.y - p.start_pos.y > VERTICAL_THRESHOLD || p.start_pos.y - p.end_pos.y
        > VERTICAL_THRESHOLD
}

/// Distance covered at `speed` in `dt` microseconds, rounded down.
pub open spec fn travel(speed: int, dt: int) -> int {
    speed * dt / MICROS_PER_SECOND as int
}

/// Signed move along the platform's axis during one tick.
pub open spec fn step_delta(p: MovingPlatform, dt: int) -> int {
    match p.direction {
        Direction::Forward => travel(p.speed as int, dt),
        Direction::Backward => -travel(p.speed as int, dt),
    }
}

/// Coordinate along the platform's axis after one tick.
pub open spec fn next_coordinate(p: MovingPlatform, dt: int) -> int {
    if is_vertical(p) {
        p.position.y + step_delta(p, dt)
    } else {
        p.position.x + step_delta(p, dt)
    }
}

/// Direction after reaching coordinate `c` along the axis whose bounds are
/// `start` and `end`.
pub open spec fn next_direction(dir: Direction, c: int, start: int, end: int) -> Direction {
    match dir {
        Direction::Forward => if c >= end {
            Direction::Backward
        } else {
            Direction::Forward
        },
        Direction::Backward => if c <= start {
            Direction::Forward
        } else {
            Direction::Backward
        },
    }
}

/// The platform may move for `dt` microseconds without leaving the coordinate range.
pub open spec fn can_advance(p: MovingPlatform, dt: int) -> bool {
    &&& p.speed >= 0
    &&& i64::MIN <= next_coordinate(p, dt) <= i64::MAX
}

/// The platform after one tick of `dt` microseconds.
pub open spec fn advanced(p: MovingPlatform, dt: int) -> MovingPlatform {
    let c = next_coordinate(p, dt);
    if is_vertical(p) {
        MovingPlatform {
            position: Point3 { x: p.position.x, y: c as i64, z: p.position.z },
            direction: next_direction(p.direction, c, p.start_pos.y as int, p.end_pos.y as int),
            ..p
        }
    } else {
        MovingPlatform {
            position: Point3 { x: c as i64, y: p.position.y, z: p.position.z },
            direction: next_direction(p.direction, c, p.start_pos.x as int, p.end_pos.x as int),
            ..p
        }
    }
}

impl MovingPlatform {
    /// Whether the platform may move for `dt` microseconds (see `can_advance`).
    pub fn can_advance_by(&self, dt: u32) -> (r: bool)
        ensures
            r == can_advance(*self, dt as int),
    {
        if self.speed < 0 {
            return false;
        }
        let vertical = self.end_pos.y as i128 - self.start_pos.y as i128 > VERTICAL_THRESHOLD as i128
            || self.start_pos.y as i128 - self.end_pos.y as i128 > VERTICAL_THRESHOLD as i128;
        proof {
            let s = self.speed as int;
            let t = dt as int;
            assert(0 <= s * t <= 0x7fff_ffff_ffff_ffff * 0xffff_ffff) by (nonlinear_arith)
                requires
                    0 <= s <= 0x7fff_ffff_ffff_ffff,
                    0 <= t <= 0xffff_ffff,
            ;
        }
        let dist: i128 = (self.speed as i128) * (dt as i128) / MICROS_PER_SECOND;
        let delta: i128 = match self.direction {
            Direction::Forward => dist,
            Direction::Backward => -dist,
        };
        let c: i128 = if vertical {
            self.position.y as i128 + delta
        } else {
            self.position.x as i128 + delta
        };
        i64::MIN as i128 <= c && c <= i64::MAX as i128
    }

    /// Moves the platform for `dt` microseconds and reverses it at its bounds.
    pub fn advance(&mut self, dt: u32)
        requires
            can_advance(*old(self), dt as int),
        ensures
            *final(self) == advanced(*old(self), dt as int),
    {
        let vertical = self.end_pos.y as i128 - self.start_pos.y as i128 > VERTICAL_THRESHOLD as i128
            || self.start_pos.y as i128 - self.end_pos.y as i128 > VERTICAL_THRESHOLD as i128;
        proof {
            let s = self.speed as int;
            let t = dt as int;
            assert(0 <= s * t <= 0x7fff_ffff_ffff_ffff * 0xffff_ffff) by (nonlinear_arith)
                requires
                    0 <= s <= 0x7fff_ffff_ffff_ffff,
                    0 <= t <= 0xffff_ffff,
            ;
        }
        let dist: i128 = (self.speed as i128) * (dt as i128) / MICROS_PER_SECOND;
        let delta: i128 = match self.direction {
            Direction::Forward => dist,
            Direction::Backward => -dist,
        };
        if vertical {
            let c: i128 = self.position.y as i128 + delta;
            self.position.y = c as i64;
            if self.direction == Direction::Forward {
                if c >= self.end_pos.y as i128 {
                    self.direction = Direction::Backward;
                }
            } else if c <= self.start_pos.y as i128 {
                self.direction = Direction::Forward;
            }
        } else {
            let c: i128 = self.position.x as i128 + delta;
            self.position.x = c as i64;
            if self.direction == Direction::Forward {
                if c >= self.end_pos.x as i128 {
                    self.direction = Direction::Backward;
                }
            } else if c <= self.start_pos.x as i128 {
                self.direction = Direction::Forward;
            }
        }
    }
}

/// Every platform in the list may move for `dt` microseconds.
pub open spec fn all_can_advance(ps: Seq<MovingPlatform>, dt: int) -> bool {
    forall|i: int| 0 <= i < ps.len() ==> can_advance(#[trigger] ps[i], dt)
}

/// Advances every moving platform by one tick of `dt` microseconds.
pub fn move_platforms(platforms: &mut Vec<MovingPlatform>, dt: u32)
    requires
        all_can_advance(old(platforms)@, dt as int),
    ensures
        final(platforms)@.len() == old(platforms)@.len(),
        forall|i: int|
            0 <= i < old(platforms)@.len() ==> final(platforms)@[i] == advanced(
                #[trigger] old(platforms)@[i],
                dt as int,
            ),
{
    let n = platforms.len();
    let mut i: usize = 0;
    while i < n
        invariant
            0 <= i <= n,
            n == old(platforms)@.len(),
            platforms@.len() == n,
            all_can_advance(old(platforms)@, dt as int),
            forall|j: int| 0 <= j < i ==> platforms@[j] == advanced(#[trigger] old(platforms)@[j], dt as int),
            forall|j: int| i <= j < n ==> platforms@[j] == old(platforms)@[j],
        decreases n - i,
    {
        let mut p = platforms[i];
        p.advance(dt);
        platforms.set(i, p);
        i += 1;
    }
}

} // verus!
