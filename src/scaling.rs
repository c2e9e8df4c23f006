use vstd::prelude::*;

verus! {

/// Fixed-point scale: one world unit (and a multiplier of one) is `UNIT` steps.
pub const UNIT: i64 = 10000;

/// Lowest size reducer applied to static platforms (0.15).
pub const STATIC_PLATFORM_FLOOR: i64 = 1500;

/// Lowest size reducer applied to the primary moving platform (0.3).
pub const PRIMARY_PLATFORM_FLOOR: i64 = 3000;

/// Lowest size reducer applied to the second moving platform (0.2).
pub const SECOND_PLATFORM_FLOOR: i64 = 2000;

/// Lowest size reducer applied to the vertical moving platform (0.15).
pub const VERTICAL_PLATFORM_FLOOR: i64 = 1500;

/// `1 + (level - 1) * 1.2`, in fixed point.
pub open spec fn difficulty_multiplier_spec(level: u32) -> int {
    UNIT + (level - 1) * 12000
}

/// `1 + (level - 1) * 2.5`, in fixed point.
pub open spec fn height_multiplier_spec(level: u32) -> int {
    UNIT + (level - 1) * 25000
}

/// `1 - (level - 1) * 0.35` before any clamp, in fixed point.
pub open spec fn raw_size_reducer_spec(level: u32) -> int {
    UNIT - (level - 1) * 3500
}

/// The size reducer clamped from below at `floor`.
pub open spec fn size_reducer_spec(level: u32, floor: int) -> int {
    if raw_size_reducer_spec(level) >= floor {
        raw_size_reducer_spec(level)
    } else {
        floor
    }
}

/// Base moving-platform speed `6 + (level - 1) * 3`, in fixed-point units per second.
pub open spec fn platform_speed_spec(level: u32) -> int {
    60000 + (level - 1) * 30000
}

/// The scalars that a level number determines.
#[derive(Clone, Copy, Debug, PartialEq, Eq, Structural)]
pub struct DifficultyScalars {
    pub difficulty_multiplier: i64,
    /// Before the per-site clamp; see `DifficultyScalars::clamped_size_reducer`.
    pub platform_size_reducer: i64,
    pub height_multiplier: i64,
    /// Base moving-platform speed in fixed-point units per second.
    pub speed_multiplier: i64,
}

pub open spec fn scalars_spec(level: u32) -> DifficultyScalars {
    DifficultyScalars {
        difficulty_multiplier: difficulty_multiplier_spec(level) as i64,
        platform_size_reducer: raw_size_reducer_spec(level) as i64,
        height_multiplier: height_multiplier_spec(level) as i64,
        speed_multiplier: platform_speed_spec(level) as i64,
    }
}

/// The difficulty scalars of `level`.
pub fn difficulty_scalars(level: u32) -> (r: DifficultyScalars)
    requires
        level >= 1,
    ensures
        r == scalars_spec(level),
        r.difficulty_multiplier == difficulty_multiplier_spec(level),
        r.platform_size_reducer == raw_size_reducer_spec(level),
        r.height_multiplier == height_multiplier_spec(level),
        r.speed_multiplier == platform_speed_spec(level),
{
    let steps: i64 = level as i64 - 1;
    DifficultyScalars {
        difficulty_multiplier: UNIT + steps * 12000,
        platform_size_reducer: UNIT - steps * 3500,
        height_multiplier: height_multiplier(level),
        speed_multiplier: platform_speed(level),
    }
}

impl DifficultyScalars {
    /// The size reducer clamped from below at `floor`.
    pub fn clamped_size_reducer(&self, floor: i64) -> (r: i64)
        ensures
            r == if self.platform_size_reducer >= floor {
                self.platform_size_reducer
            } else {
                floor
            },
            r >= floor,
    {
        if self.platform_size_reducer >= floor {
            self.platform_size_reducer
        } else {
            floor
        }
    }
}

pub fn height_multiplier(level: u32) -> (r: i64)
    requires
        level >= 1,
    ensures
        r == height_multiplier_spec(level),
        r >= UNIT,
{
    UNIT + (level as i64 - 1) * 25000
}

/// The size reducer of `level`, clamped from below at `floor`.
pub fn platform_size_reducer(level: u32, floor: i64) -> (r: i64)
    requires
        level >= 1,
    ensures
        r == size_reducer_spec(level, floor as int),
        r >= floor,
{
    let raw: i64 = UNIT - (level as i64 - 1) * 3500;
    if raw >= floor {
        raw
    } else {
        floor
    }
}

pub fn platform_speed(level: u32) -> (r: i64)
    requires
        level >= 1,
    ensures
        r == platform_speed_spec(level),
        r >= 60000,
{
    60000 + (level as i64 - 1) * 30000
}

/// For every level and every floor, the clamped size reducer never falls below
/// that floor.
pub proof fn lemma_size_reducer_at_least_floor(level: u32, floor: int)
    ensures
        size_reducer_spec(level, floor) >= floor,
{
}

} // verus!
