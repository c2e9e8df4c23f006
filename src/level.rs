use vstd::prelude::*;

use crate::geometry::Point3;
use crate::motion::{Direction, MovingPlatform};
use crate::scaling::{
    height_multiplier, height_multiplier_spec, platform_size_reducer, platform_speed,
    platform_speed_spec, size_reducer_spec, PRIMARY_PLATFORM_FLOOR, SECOND_PLATFORM_FLOOR,
    STATIC_PLATFORM_FLOOR, UNIT, VERTICAL_PLATFORM_FLOOR,
};

verus! {

/// Vertical edge length of every platform before scaling (0.5 units).
pub const PLATFORM_THICKNESS: i64 = 5000;

/// An authored Y coordinate above this (5 units) marks an elevated hazard.
pub const ELEVATED_HEIGHT: i64 = 50000;

/// Every 20 units of height add one point to a collectible's value.
pub const HEIGHT_BONUS_STEP: i64 = 200000;

/// Upper bound on every authored Y coordinate; keeps scaled heights inside `i64`.
pub const MAX_AUTHORED_HEIGHT: i64 = 2_000_000;

/// A static platform: its centre and the edge lengths of its box.
#[derive(Clone, Copy, Debug, PartialEq, Eq, Structural)]
pub struct Platform {
    pub position: Point3,
    pub size: Point3,
}

/// A pickup worth `value` points.
#[derive(Clone, Copy, Debug, PartialEq, Eq, Structural)]
pub struct Collectible {
    pub position: Point3,
    pub value: u64,
}

/// A damaging block; `size` is the edge length of its square footprint.
#[derive(Clone, Copy, Debug, PartialEq, Eq, Structural)]
pub struct Hazard {
    pub position: Point3,
    pub size: i64,
    pub elevated: bool,
}

/// Everything that belongs to one level and is replaced wholesale on a level change.
pub struct LevelContent {
    pub platforms: Vec<Platform>,
    pub moving_platforms: Vec<MovingPlatform>,
    pub collectibles: Vec<Collectible>,
    pub hazards: Vec<Hazard>,
}

/// Authored static platforms: `(x, y, z, footprint)` at level-one height.
pub open spec fn authored_platform(i: int) -> (i64, i64, i64, i64) {
    if i == 0 {
        (80000i64, 60000i64, -50000i64, 40000i64)
    } else if i == 1 {
        (-80000i64, 120000i64, 0i64, 40000i64)
    } else if i == 2 {
        (20000i64, 150000i64, 80000i64, 40000i64)
    } else if i == 3 {
        (120000i64, 240000i64, 20000i64, 40000i64)
    } else if i == 4 {
        (-120000i64, 300000i64, -80000i64, 30000i64)
    } else if i == 5 {
        (160000i64, 360000i64, -20000i64, 25000i64)
    } else if i == 6 {
        (-160000i64, 420000i64, 60000i64, 20000i64)
    } else if i == 7 {
        (200000i64, 480000i64, -80000i64, 18000i64)
    } else if i == 8 {
        (-200000i64, 540000i64, 100000i64, 15000i64)
    } else if i == 9 {
        (240000i64, 600000i64, 0i64, 12000i64)
    } else if i == 10 {
        (0i64, 660000i64, -150000i64, 10000i64)
    } else if i == 11 {
        (-240000i64, 720000i64, 50000i64, 10000i64)
    } else if i == 12 {
        (280000i64, 780000i64, -100000i64, 8000i64)
    } else if i == 13 {
        (-280000i64, 840000i64, 120000i64, 8000i64)
    } else if i == 14 {
        (320000i64, 900000i64, -50000i64, 6000i64)
    } else if i == 15 {
        (0i64, 960000i64, 180000i64, 6000i64)
    } else if i == 16 {
        (-320000i64, 1020000i64, -80000i64, 5000i64)
    } else if i == 17 {
        (360000i64, 1080000i64, 0i64, 4000i64)
    } else if i == 18 {
        (400000i64, 1140000i64, -150000i64, 3000i64)
    } else if i == 19 {
        (-400000i64, 1200000i64, 200000i64, 3000i64)
    } else if i == 20 {
        (0i64, 1260000i64, -250000i64, 2500i64)
    } else if i == 21 {
        (440000i64, 1320000i64, 100000i64, 2500i64)
    } else {
        (-440000i64, 1380000i64, -100000i64, 2000i64)
    }
}

fn authored_platform_at(i: usize) -> (r: (i64, i64, i64, i64))
    requires
        i < 23,
    ensures
        r == authored_platform(i as int),
        0 <= r.1 <= MAX_AUTHORED_HEIGHT,
        0 < r.3 <= 4 * UNIT,
{
    match i {
        0 => (80000, 60000, -50000, 40000),
        1 => (-80000, 120000, 0, 40000),
        2 => (20000, 150000, 80000, 40000),
        3 => (120000, 240000, 20000, 40000),
        4 => (-120000, 300000, -80000, 30000),
        5 => (160000, 360000, -20000, 25000),
        6 => (-160000, 420000, 60000, 20000),
        7 => (200000, 480000, -80000, 18000),
        8 => (-200000, 540000, 100000, 15000),
        9 => (240000, 600000, 0, 12000),
        10 => (0, 660000, -150000, 10000),
        11 => (-240000, 720000, 50000, 10000),
        12 => (280000, 780000, -100000, 8000),
        13 => (-280000, 840000, 120000, 8000),
        14 => (320000, 900000, -50000, 6000),
        15 => (0, 960000, 180000, 6000),
        16 => (-320000, 1020000, -80000, 5000),
        17 => (360000, 1080000, 0, 4000),
        18 => (400000, 1140000, -150000, 3000),
        19 => (-400000, 1200000, 200000, 3000),
        20 => (0, 1260000, -250000, 2500),
        21 => (440000, 1320000, 100000, 2500),
        _ => (-440000, 1380000, -100000, 2000),
    }
}

/// Authored collectible positions `(x, y, z)` at level-one height.
pub open spec fn authored_collectible(i: int) -> (i64, i64, i64) {
    if i == 0 {
        (80000i64, 80000i64, -50000i64)
    } else if i == 1 {
        (-80000i64, 145000i64, 0i64)
    } else if i == 2 {
        (20000i64, 125000i64, 80000i64)
    } else if i == 3 {
        (120000i64, 265000i64, 20000i64)
    } else if i == 4 {
        (-40000i64, 220000i64, -80000i64)
    } else if i == 5 {
        (-120000i64, 320000i64, -80000i64)
    } else if i == 6 {
        (160000i64, 385000i64, -20000i64)
    } else if i == 7 {
        (-160000i64, 445000i64, 60000i64)
    } else if i == 8 {
        (200000i64, 505000i64, -80000i64)
    } else if i == 9 {
        (-200000i64, 565000i64, 100000i64)
    } else if i == 10 {
        (240000i64, 625000i64, 0i64)
    } else if i == 11 {
        (0i64, 685000i64, -150000i64)
    } else if i == 12 {
        (-240000i64, 745000i64, 50000i64)
    } else if i == 13 {
        (280000i64, 805000i64, -100000i64)
    } else if i == 14 {
        (-280000i64, 865000i64, 120000i64)
    } else if i == 15 {
        (320000i64, 925000i64, -50000i64)
    } else if i == 16 {
        (0i64, 985000i64, 180000i64)
    } else if i == 17 {
        (-320000i64, 1045000i64, -80000i64)
    } else if i == 18 {
        (360000i64, 1105000i64, 0i64)
    } else if i == 19 {
        (400000i64, 1165000i64, -150000i64)
    } else if i == 20 {
        (-400000i64, 1225000i64, 200000i64)
    } else if i == 21 {
        (0i64, 1285000i64, -250000i64)
    } else if i == 22 {
        (440000i64, 1345000i64, 100000i64)
    } else {
        (-440000i64, 1405000i64, -100000i64)
    }
}

fn authored_collectible_at(i: usize) -> (r: (i64, i64, i64))
    requires
        i < 24,
    ensures
        r == authored_collectible(i as int),
        0 <= r.1 <= MAX_AUTHORED_HEIGHT,
{
    match i {
        0 => (80000, 80000, -50000),
        1 => (-80000, 145000, 0),
        2 => (20000, 125000, 80000),
        3 => (120000, 265000, 20000),
        4 => (-40000, 220000, -80000),
        5 => (-120000, 320000, -80000),
        6 => (160000, 385000, -20000),
        7 => (-160000, 445000, 60000),
        8 => (200000, 505000, -80000),
        9 => (-200000, 565000, 100000),
        10 => (240000, 625000, 0),
        11 => (0, 685000, -150000),
        12 => (-240000, 745000, 50000),
        13 => (280000, 805000, -100000),
        14 => (-280000, 865000, 120000),
        15 => (320000, 925000, -50000),
        16 => (0, 985000, 180000),
        17 => (-320000, 1045000, -80000),
        18 => (360000, 1105000, 0),
        19 => (400000, 1165000, -150000),
        20 => (-400000, 1225000, 200000),
        21 => (0, 1285000, -250000),
        22 => (440000, 1345000, 100000),
        _ => (-440000, 1405000, -100000),
    }
}

/// Authored hazard positions `(x, y, z)` at level-one height.
pub open spec fn authored_hazard(i: int) -> (i64, i64, i64) {
    if i == 0 {
        (40000i64, 10000i64, 40000i64)
    } else if i == 1 {
        (-40000i64, 10000i64, -40000i64)
    } else if i == 2 {
        (0i64, 10000i64, -80000i64)
    } else if i == 3 {
        (100000i64, 10000i64, -20000i64)
    } else if i == 4 {
        (-100000i64, 10000i64, 60000i64)
    } else if i == 5 {
        (20000i64, 10000i64, 100000i64)
    } else if i == 6 {
        (-60000i64, 10000i64, -100000i64)
    } else if i == 7 {
        (140000i64, 10000i64, -60000i64)
    } else if i == 8 {
        (-140000i64, 10000i64, 80000i64)
    } else if i == 9 {
        (180000i64, 10000i64, 40000i64)
    } else if i == 10 {
        (60000i64, 10000i64, -120000i64)
    } else if i == 11 {
        (80000i64, 80000i64, -30000i64)
    } else if i == 12 {
        (-80000i64, 140000i64, 20000i64)
    } else if i == 13 {
        (-180000i64, 10000i64, -40000i64)
    } else if i == 14 {
        (220000i64, 10000i64, 0i64)
    } else if i == 15 {
        (0i64, 10000i64, 140000i64)
    } else if i == 16 {
        (0i64, 200000i64, 60000i64)
    } else if i == 17 {
        (120000i64, 260000i64, 0i64)
    } else if i == 18 {
        (-120000i64, 320000i64, -60000i64)
    } else if i == 19 {
        (-220000i64, 10000i64, 120000i64)
    } else if i == 20 {
        (260000i64, 10000i64, -80000i64)
    } else if i == 21 {
        (160000i64, 380000i64, -40000i64)
    } else if i == 22 {
        (-200000i64, 560000i64, 80000i64)
    } else if i == 23 {
        (240000i64, 620000i64, -20000i64)
    } else if i == 24 {
        (0i64, 680000i64, -130000i64)
    } else if i == 25 {
        (300000i64, 10000i64, 150000i64)
    } else if i == 26 {
        (-300000i64, 10000i64, -150000i64)
    } else if i == 27 {
        (280000i64, 800000i64, -80000i64)
    } else if i == 28 {
        (-280000i64, 860000i64, 100000i64)
    } else if i == 29 {
        (320000i64, 920000i64, -30000i64)
    } else if i == 30 {
        (0i64, 980000i64, 160000i64)
    } else {
        (-320000i64, 1040000i64, -60000i64)
    }
}

fn authored_hazard_at(i: usize) -> (r: (i64, i64, i64))
    requires
        i < 32,
    ensures
        r == authored_hazard(i as int),
        0 <= r.1 <= MAX_AUTHORED_HEIGHT,
{
    match i {
        0 => (40000, 10000, 40000),
        1 => (-40000, 10000, -40000),
        2 => (0, 10000, -80000),
        3 => (100000, 10000, -20000),
        4 => (-100000, 10000, 60000),
        5 => (20000, 10000, 100000),
        6 => (-60000, 10000, -100000),
        7 => (140000, 10000, -60000),
        8 => (-140000, 10000, 80000),
        9 => (180000, 10000, 40000),
        10 => (60000, 10000, -120000),
        11 => (80000, 80000, -30000),
        12 => (-80000, 140000, 20000),
        13 => (-180000, 10000, -40000),
        14 => (220000, 10000, 0),
        15 => (0, 10000, 140000),
        16 => (0, 200000, 60000),
        17 => (120000, 260000, 0),
        18 => (-120000, 320000, -60000),
        19 => (-220000, 10000, 120000),
        20 => (260000, 10000, -80000),
        21 => (160000, 380000, -40000),
        22 => (-200000, 560000, 80000),
        23 => (240000, 620000, -20000),
        24 => (0, 680000, -130000),
        25 => (300000, 10000, 150000),
        26 => (-300000, 10000, -150000),
        27 => (280000, 800000, -80000),
        28 => (-280000, 860000, 100000),
        29 => (320000, 920000, -30000),
        30 => (0, 980000, 160000),
        _ => (-320000, 1040000, -60000),
    }
}

/// Number of authored static platforms available at `level`.
pub open spec fn platform_candidates(level: u32) -> int {
    if level <= 1 {
        4
    } else if level == 2 {
        7
    } else if level == 3 {
        12
    } else if level == 4 {
        18
    } else {
        23
    }
}

/// Number of authored collectible positions available at `level`.
pub open spec fn collectible_candidates(level: u32) -> int {
    if level <= 1 {
        8
    } else if level == 2 {
        11
    } else if level == 3 {
        15
    } else if level == 4 {
        19
    } else {
        24
    }
}

/// Number of authored hazard positions available at `level`.
pub open spec fn hazard_candidates(level: u32) -> int {
    if level <= 1 {
        8
    } else if level == 2 {
        13
    } else if level == 3 {
        19
    } else if level == 4 {
        25
    } else {
        32
    }
}

pub open spec fn min(a: int, b: int) -> int {
    if a <= b {
        a
    } else {
        b
    }
}

/// Collectibles placed at `level`: `min(8 + (level - 1) * 4, candidates)`.
pub open spec fn collectible_count(level: u32) -> int {
    min(8 + (level - 1) * 4, collectible_candidates(level))
}

/// Hazards placed at `level`: `min(8 + (level - 1) * 3, candidates)`.
pub open spec fn hazard_count(level: u32) -> int {
    min(8 + (level - 1) * 3, hazard_candidates(level))
}

/// Moving platforms placed at `level`: the primary one, a second from level
/// three on, a vertical one from level four on.
pub open spec fn moving_platform_count(level: u32) -> int {
    if level >= 4 {
        3
    } else if level >= 3 {
        2
    } else {
        1
    }
}

/// An authored height `y` raised by the level's height multiplier.
pub open spec fn scaled_height(y: int, level: u32) -> int {
    y * height_multiplier_spec(level) / UNIT as int
}

/// A length scaled by a fixed-point reducer.
pub open spec fn scaled_length(len: int, reducer: int) -> int {
    len * reducer / UNIT as int
}

/// Whole multiples of 20 units in height `y`, and nothing below the ground.
pub open spec fn height_bonus(y: int) -> int {
    if y <= 0 {
        0
    } else {
        y / HEIGHT_BONUS_STEP as int
    }
}

/// Points of a collectible at height `y` on `level`: `15 + (level - 1) * 10 + bonus`.
pub open spec fn collectible_value(level: u32, y: int) -> int {
    15 + (level - 1) * 10 + height_bonus(y)
}

/// Footprint of a hazard, by level tier and elevation.
pub open spec fn hazard_size(level: u32, elevated: bool) -> int {
    if level <= 2 {
        if elevated { 22000 } else { 20000 }
    } else if level <= 4 {
        if elevated { 25000 } else { 23000 }
    } else {
        if elevated { 28000 } else { 25000 }
    }
}

/// The `i`-th static platform of `level`.
pub open spec fn platform_spec(level: u32, i: int) -> Platform {
    let a = authored_platform(i);
    let r = size_reducer_spec(level, STATIC_PLATFORM_FLOOR as int);
    Platform {
        position: Point3 { x: a.0, y: scaled_height(a.1 as int, level) as i64, z: a.2 },
        size: Point3 {
            x: scaled_length(a.3 as int, r) as i64,
            y: scaled_length(PLATFORM_THICKNESS as int, r) as i64,
            z: scaled_length(a.3 as int, r) as i64,
        },
    }
}

/// The `i`-th collectible of `level`.
pub open spec fn collectible_spec(level: u32, i: int) -> Collectible {
    let a = authored_collectible(i);
    let y = scaled_height(a.1 as int, level);
    Collectible {
        position: Point3 { x: a.0, y: y as i64, z: a.2 },
        value: collectible_value(level, y) as u64,
    }
}

/// The `i`-th hazard of `level`; only elevated hazards rise with the level.
pub open spec fn hazard_spec(level: u32, i: int) -> Hazard {
    let a = authored_hazard(i);
    let elevated = a.1 > ELEVATED_HEIGHT;
    Hazard {
        position: Point3 {
            x: a.0,
            y: if elevated {
                scaled_height(a.1 as int, level) as i64
            } else {
                a.1
            },
            z: a.2,
        },
        size: hazard_size(level, elevated) as i64,
        elevated,
    }
}

/// A moving platform at rest at its start, heading for its end.
pub open spec fn moving_platform_at_start(
    start: Point3,
    end: Point3,
    size: Point3,
    speed: int,
) -> MovingPlatform {
    MovingPlatform {
        position: start,
        start_pos: start,
        end_pos: end,
        size,
        speed: speed as i64,
        direction: Direction::Forward,
    }
}

/// The `i`-th moving platform of `level`: the primary horizontal one, the
/// faster second one, and the vertical one.
pub open spec fn moving_platform_spec(level: u32, i: int) -> MovingPlatform {
    let speed = platform_speed_spec(level);
    if i == 0 {
        let y = scaled_height(200000, level) as i64;
        let r = size_reducer_spec(level, PRIMARY_PLATFORM_FLOOR as int);
        moving_platform_at_start(
            Point3 { x: -40000i64, y, z: -80000i64 },
            Point3 { x: 120000i64, y, z: -80000i64 },
            Point3 {
                x: scaled_length(30000, r) as i64,
                y: PLATFORM_THICKNESS,
                z: scaled_length(15000, r) as i64,
            },
            speed,
        )
    } else if i == 1 {
        let y = scaled_height(500000, level) as i64;
        let r = size_reducer_spec(level, SECOND_PLATFORM_FLOOR as int);
        moving_platform_at_start(
            Point3 { x: 200000i64, y, z: 150000i64 },
            Point3 { x: -200000i64, y, z: 150000i64 },
            Point3 {
                x: scaled_length(15000, r) as i64,
                y: PLATFORM_THICKNESS,
                z: scaled_length(15000, r) as i64,
            },
            speed * 18 / 10,
        )
    } else {
        let y = scaled_height(800000, level) as i64;
        let r = size_reducer_spec(level, VERTICAL_PLATFORM_FLOOR as int);
        moving_platform_at_start(
            Point3 { x: 0i64, y, z: 0i64 },
            Point3 { x: 0i64, y: (y + 300000) as i64, z: 0i64 },
            Point3 {
                x: scaled_length(10000, r) as i64,
                y: PLATFORM_THICKNESS,
                z: scaled_length(10000, r) as i64,
            },
            speed * 8 / 10,
        )
    }
}

pub open spec fn platforms_spec(level: u32) -> Seq<Platform> {
    Seq::new(platform_candidates(level) as nat, |i: int| platform_spec(level, i))
}

pub open spec fn moving_platforms_spec(level: u32) -> Seq<MovingPlatform> {
    Seq::new(moving_platform_count(level) as nat, |i: int| moving_platform_spec(level, i))
}

pub open spec fn collectibles_spec(level: u32) -> Seq<Collectible> {
    Seq::new(collectible_count(level) as nat, |i: int| collectible_spec(level, i))
}

pub open spec fn hazards_spec(level: u32) -> Seq<Hazard> {
    Seq::new(hazard_count(level) as nat, |i: int| hazard_spec(level, i))
}

/// `c` holds exactly the content generated for `level`.
pub open spec fn is_level_content(c: LevelContent, level: u32) -> bool {
    &&& c.platforms@ == platforms_spec(level)
    &&& c.moving_platforms@ == moving_platforms_spec(level)
    &&& c.collectibles@ == collectibles_spec(level)
    &&& c.hazards@ == hazards_spec(level)
}

/// Bounds that keep every scaled height inside `i64`.
proof fn lemma_scaled_height_bounds(y: int, level: u32)
    requires
        level >= 1,
        0 <= y <= MAX_AUTHORED_HEIGHT,
    ensures
        0 <= y * height_multiplier_spec(level) <= MAX_AUTHORED_HEIGHT * 0x1_0000_0000 * 25000,
        0 <= scaled_height(y, level) <= MAX_AUTHORED_HEIGHT * 0x1_0000_0000 * 25000 / UNIT as int,
{
    let h = height_multiplier_spec(level);
    assert(0 < h <= 0x1_0000_0000 * 25000);
    assert(0 <= y * h <= MAX_AUTHORED_HEIGHT * 0x1_0000_0000 * 25000) by (nonlinear_arith)
        requires
            0 <= y <= MAX_AUTHORED_HEIGHT,
            0 < h <= 0x1_0000_0000 * 25000,
    ;
    vstd::arithmetic::div_mod::lemma_div_is_ordered(
        y * h,
        MAX_AUTHORED_HEIGHT * 0x1_0000_0000 * 25000,
        UNIT as int,
    );
    vstd::arithmetic::div_mod::lemma_div_pos_is_pos(y * h, UNIT as int);
}

/// An authored height raised by the height multiplier of `level`.
fn scale_height(y: i64, level: u32) -> (r: i64)
    requires
        level >= 1,
        0 <= y <= MAX_AUTHORED_HEIGHT,
    ensures
        r == scaled_height(y as int, level),
        0 <= r <= MAX_AUTHORED_HEIGHT * 0x1_0000_0000 * 25000 / UNIT as int,
{
    let h = height_multiplier(level);
    proof {
        lemma_scaled_height_bounds(y as int, level);
    }
    ((y as i128) * (h as i128) / (UNIT as i128)) as i64
}

/// A length of at most four units scaled by a reducer between zero and one.
fn scale_length(len: i64, reducer: i64) -> (r: i64)
    requires
        0 <= len <= 4 * UNIT,
        0 <= reducer <= UNIT,
    ensures
        r == scaled_length(len as int, reducer as int),
        0 <= r,
{
    proof {
        assert(0 <= len * reducer <= 4 * UNIT * UNIT) by (nonlinear_arith)
            requires
                0 <= len <= 4 * UNIT,
                0 <= reducer <= UNIT,
        ;
        vstd::arithmetic::div_mod::lemma_div_pos_is_pos(len * reducer, UNIT as int);
    }
    len * reducer / UNIT
}

/// A size reducer clamped at `floor`, which is at most one.
fn clamped_reducer(level: u32, floor: i64) -> (r: i64)
    requires
        level >= 1,
        0 <= floor <= UNIT,
    ensures
        r == size_reducer_spec(level, floor as int),
        0 <= r <= UNIT,
{
    platform_size_reducer(level, floor)
}

fn platform_candidate_count(level: u32) -> (r: usize)
    ensures
        r == platform_candidates(level),
{
    if level <= 1 {
        4
    } else if level == 2 {
        7
    } else if level == 3 {
        12
    } else if level == 4 {
        18
    } else {
        23
    }
}

/// Number of collectibles placed at `level`.
pub fn collectible_count_for(level: u32) -> (r: usize)
    requires
        level >= 1,
    ensures
        r == collectible_count(level),
{
    let candidates: u64 = if level <= 1 {
        8
    } else if level == 2 {
        11
    } else if level == 3 {
        15
    } else if level == 4 {
        19
    } else {
        24
    };
    let wanted: u64 = 8 + (level as u64 - 1) * 4;
    if wanted <= candidates {
        wanted as usize
    } else {
        candidates as usize
    }
}

/// Number of hazards placed at `level`.
pub fn hazard_count_for(level: u32) -> (r: usize)
    requires
        level >= 1,
    ensures
        r == hazard_count(level),
{
    let candidates: u64 = if level <= 1 {
        8
    } else if level == 2 {
        13
    } else if level == 3 {
        19
    } else if level == 4 {
        25
    } else {
        32
    };
    let wanted: u64 = 8 + (level as u64 - 1) * 3;
    if wanted <= candidates {
        wanted as usize
    } else {
        candidates as usize
    }
}

/// The static platforms of `level`, raised and shrunk by its scalars.
pub fn generate_platforms(level: u32) -> (r: Vec<Platform>)
    requires
        level >= 1,
    ensures
        r@ == platforms_spec(level),
{
    let n = platform_candidate_count(level);
    let reducer = clamped_reducer(level, STATIC_PLATFORM_FLOOR);
    let thickness = scale_length(PLATFORM_THICKNESS, reducer);
    let mut v: Vec<Platform> = Vec::new();
    let mut i: usize = 0;
    while i < n
        invariant
            n == platform_candidates(level),
            level >= 1,
            n <= 23,
            0 <= i <= n,
            reducer == size_reducer_spec(level, STATIC_PLATFORM_FLOOR as int),
            0 <= reducer <= UNIT,
            thickness == scaled_length(PLATFORM_THICKNESS as int, reducer as int),
            v@.len() == i,
            forall|j: int| 0 <= j < i ==> v@[j] == platform_spec(level, j),
        decreases n - i,
    {
        let a = authored_platform_at(i);
        let y = scale_height(a.1, level);
        let w = scale_length(a.3, reducer);
        v.push(Platform { position: Point3::new(a.0, y, a.2), size: Point3::new(w, thickness, w) });
        i += 1;
    }
    assert(v@ =~= platforms_spec(level));
    v
}

/// The collectibles of `level`: the first `collectible_count(level)` authored
/// positions, raised, each worth its level and height.
pub fn generate_collectibles(level: u32) -> (r: Vec<Collectible>)
    requires
        level >= 1,
    ensures
        r@ == collectibles_spec(level),
{
    let n = collectible_count_for(level);
    let mut v: Vec<Collectible> = Vec::new();
    let mut i: usize = 0;
    while i < n
        invariant
            n == collectible_count(level),
            level >= 1,
            n <= 24,
            0 <= i <= n,
            v@.len() == i,
            forall|j: int| 0 <= j < i ==> v@[j] == collectible_spec(level, j),
        decreases n - i,
    {
        let a = authored_collectible_at(i);
        let y = scale_height(a.1, level);
        let bonus: u64 = (y / HEIGHT_BONUS_STEP) as u64;
        let value: u64 = 15 + (level as u64 - 1) * 10 + bonus;
        v.push(Collectible { position: Point3::new(a.0, y, a.2), value });
        i += 1;
    }
    assert(v@ =~= collectibles_spec(level));
    v
}

fn hazard_size_at(level: u32, elevated: bool) -> (r: i64)
    ensures
        r == hazard_size(level, elevated),
{
    if level <= 2 {
        if elevated { 22000 } else { 20000 }
    } else if level <= 4 {
        if elevated { 25000 } else { 23000 }
    } else {
        if elevated { 28000 } else { 25000 }
    }
}

/// The hazards of `level`: the first `hazard_count(level)` authored positions,
/// the elevated ones raised.
pub fn generate_hazards(level: u32) -> (r: Vec<Hazard>)
    requires
        level >= 1,
    ensures
        r@ == hazards_spec(level),
{
    let n = hazard_count_for(level);
    let mut v: Vec<Hazard> = Vec::new();
    let mut i: usize = 0;
    while i < n
        invariant
            n == hazard_count(level),
            level >= 1,
            n <= 32,
            0 <= i <= n,
            v@.len() == i,
            forall|j: int| 0 <= j < i ==> v@[j] == hazard_spec(level, j),
        decreases n - i,
    {
        let a = authored_hazard_at(i);
        let elevated = a.1 > ELEVATED_HEIGHT;
        let y = if elevated {
            scale_height(a.1, level)
        } else {
            a.1
        };
        let size = hazard_size_at(level, elevated);
        v.push(Hazard { position: Point3::new(a.0, y, a.2), size, elevated });
        i += 1;
    }
    assert(v@ =~= hazards_spec(level));
    v
}

/// The moving platforms of `level`, each at its start and heading for its end.
pub fn generate_moving_platforms(level: u32) -> (r: Vec<MovingPlatform>)
    requires
        level >= 1,
    ensures
        r@ == moving_platforms_spec(level),
{
    let speed = platform_speed(level);
    let mut v: Vec<MovingPlatform> = Vec::new();

    let y = scale_height(200000, level);
    let r = clamped_reducer(level, PRIMARY_PLATFORM_FLOOR);
    let start = Point3::new(-40000, y, -80000);
    v.push(MovingPlatform {
        position: start,
        start_pos: start,
        end_pos: Point3::new(120000, y, -80000),
        size: Point3::new(scale_length(30000, r), PLATFORM_THICKNESS, scale_length(15000, r)),
        speed,
        direction: Direction::Forward,
    });

    if level >= 3 {
        let y = scale_height(500000, level);
        let r = clamped_reducer(level, SECOND_PLATFORM_FLOOR);
        let start = Point3::new(200000, y, 150000);
        let side = scale_length(15000, r);
        v.push(MovingPlatform {
            position: start,
            start_pos: start,
            end_pos: Point3::new(-200000, y, 150000),
            size: Point3::new(side, PLATFORM_THICKNESS, side),
            speed: speed * 18 / 10,
            direction: Direction::Forward,
        });
    }

    if level >= 4 {
        let y = scale_height(800000, level);
        let r = clamped_reducer(level, VERTICAL_PLATFORM_FLOOR);
        let start = Point3::new(0, y, 0);
        let side = scale_length(10000, r);
        v.push(MovingPlatform {
            position: start,
            start_pos: start,
            end_pos: Point3::new(0, y + 300000, 0),
            size: Point3::new(side, PLATFORM_THICKNESS, side),
            speed: speed * 8 / 10,
            direction: Direction::Forward,
        });
    }
    assert(v@ =~= moving_platforms_spec(level));
    v
}

/// The whole content of `level`.
pub fn generate(level: u32) -> (r: LevelContent)
    requires
        level >= 1,
    ensures
        is_level_content(r, level),
{
    LevelContent {
        platforms: generate_platforms(level),
        moving_platforms: generate_moving_platforms(level),
        collectibles: generate_collectibles(level),
        hazards: generate_hazards(level),
    }
}

/// Generation is a pure function of the level: two contents generated for the
/// same level hold the same platforms, moving platforms, collectibles and hazards.
pub proof fn lemma_generation_deterministic(level: u32, a: LevelContent, b: LevelContent)
    requires
        is_level_content(a, level),
        is_level_content(b, level),
    ensures
        a.platforms@ == b.platforms@,
        a.moving_platforms@ == b.moving_platforms@,
        a.collectibles@ == b.collectibles@,
        a.hazards@ == b.hazards@,
{
}

/// A collectible is worth at least 15 points at every level and every height.
pub proof fn lemma_collectible_value_at_least_base(level: u32, y: int)
    requires
        level >= 1,
    ensures
        collectible_value(level, y) >= 15,
{
}

/// Every generated collectible is worth at least 15 points.
pub proof fn lemma_generated_values_at_least_base(level: u32)
    requires
        level >= 1,
    ensures
        forall|i: int|
            0 <= i < collectibles_spec(level).len() ==> (#[trigger] collectibles_spec(level)[i]).value
                >= 15,
{
    assert forall|i: int| 0 <= i < collectibles_spec(level).len() implies (
    #[trigger] collectibles_spec(level)[i]).value >= 15 by {
        let a = authored_collectible(i);
        assert(0 <= a.1 <= MAX_AUTHORED_HEIGHT);
        lemma_scaled_height_bounds(a.1 as int, level);
        let y = scaled_height(a.1 as int, level);
        assert(0 <= height_bonus(y) <= y);
        assert(collectible_value(level, y) <= u64::MAX);
    }
}

/// The number of collectibles of a level is `min(8 + (level - 1) * 4, candidates)`,
/// which is exactly 8 on level one.
pub proof fn lemma_collectible_count(level: u32)
    requires
        level >= 1,
    ensures
        collectibles_spec(level).len() == min(
            8 + (level - 1) * 4,
            collectible_candidates(level),
        ),
        level == 1 ==> collectibles_spec(level).len() == 8,
{
}

/// Every level, and so every level reached by completing one, has collectibles.
pub proof fn lemma_level_has_collectibles(level: u32)
    requires
        level >= 1,
    ensures
        collectibles_spec(level).len() >= 8,
{
}

/// No generated platform, static or moving, has a zero or negative extent.
pub proof fn lemma_generated_platforms_have_extent(level: u32)
    requires
        level >= 1,
    ensures
        forall|i: int|
            0 <= i < platforms_spec(level).len() ==> {
                let p = #[trigger] platforms_spec(level)[i];
                p.size.x > 0 && p.size.y > 0 && p.size.z > 0
            },
        forall|i: int|
            0 <= i < moving_platforms_spec(level).len() ==> {
                let p = #[trigger] moving_platforms_spec(level)[i];
                p.size.x > 0 && p.size.y > 0 && p.size.z > 0
            },
{
    assert forall|i: int| 0 <= i < platforms_spec(level).len() implies {
        let p = #[trigger] platforms_spec(level)[i];
        p.size.x > 0 && p.size.y > 0 && p.size.z > 0
    } by {
        let r = size_reducer_spec(level, STATIC_PLATFORM_FLOOR as int);
        let w = authored_platform(i).3 as int;
        assert(2000 <= w <= 4 * UNIT);
        lemma_scaled_length_bounds(w, r);
        lemma_scaled_length_bounds(PLATFORM_THICKNESS as int, r);
    }
    let r0 = size_reducer_spec(level, PRIMARY_PLATFORM_FLOOR as int);
    let r1 = size_reducer_spec(level, SECOND_PLATFORM_FLOOR as int);
    let r2 = size_reducer_spec(level, VERTICAL_PLATFORM_FLOOR as int);
    lemma_scaled_length_bounds(30000, r0);
    lemma_scaled_length_bounds(15000, r0);
    lemma_scaled_length_bounds(15000, r1);
    lemma_scaled_length_bounds(10000, r2);
}

/// A length of at least 0.2 units scaled by a reducer of at least 0.15 stays
/// positive and within `i64`.
proof fn lemma_scaled_length_bounds(len: int, reducer: int)
    requires
        2000 <= len <= 4 * UNIT,
        STATIC_PLATFORM_FLOOR <= reducer <= UNIT,
    ensures
        0 < scaled_length(len, reducer) <= 4 * UNIT,
{
    assert(3_000_000 <= len * reducer <= 4 * UNIT * UNIT) by (nonlinear_arith)
        requires
            2000 <= len <= 4 * UNIT,
            STATIC_PLATFORM_FLOOR <= reducer <= UNIT,
    ;
    vstd::arithmetic::div_mod::lemma_div_is_ordered(3_000_000, len * reducer, UNIT as int);
    vstd::arithmetic::div_mod::lemma_div_is_ordered(len * reducer, 4 * UNIT * UNIT, UNIT as int);
}

} // verus!
