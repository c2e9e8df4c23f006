use platformer::geometry::Point3;
use platformer::level::{
    collectible_count_for, generate, generate_collectibles, generate_hazards,
    generate_moving_platforms, generate_platforms, hazard_count_for,
};
use platformer::motion::Direction;
use platformer::scaling::{
    difficulty_scalars, height_multiplier, platform_size_reducer, platform_speed,
    DifficultyScalars, PRIMARY_PLATFORM_FLOOR, SECOND_PLATFORM_FLOOR, STATIC_PLATFORM_FLOOR,
};

#[test]
fn scalars_of_level_one_are_neutral() {
    assert_eq!(
        difficulty_scalars(1),
        DifficultyScalars {
            difficulty_multiplier: 10000,
            platform_size_reducer: 10000,
            height_multiplier: 10000,
            speed_multiplier: 60000,
        }
    );
}

#[test]
fn scalars_of_level_three() {
    let s = difficulty_scalars(3);
    assert_eq!(s.difficulty_multiplier, 34000);
    assert_eq!(s.platform_size_reducer, 3000);
    assert_eq!(s.height_multiplier, 60000);
    assert_eq!(s.speed_multiplier, 120000);
    assert_eq!(s.clamped_size_reducer(STATIC_PLATFORM_FLOOR), 3000);
}

#[test]
fn size_reducer_is_clamped_at_floor() {
    assert_eq!(platform_size_reducer(2, STATIC_PLATFORM_FLOOR), 6500);
    assert_eq!(platform_size_reducer(4, STATIC_PLATFORM_FLOOR), 1500);
    assert_eq!(platform_size_reducer(5, PRIMARY_PLATFORM_FLOOR), 3000);
    assert_eq!(difficulty_scalars(9).clamped_size_reducer(SECOND_PLATFORM_FLOOR), 2000);
}

#[test]
fn size_reducer_never_below_floor() {
    for level in 1..=200u32 {
        for floor in [STATIC_PLATFORM_FLOOR, SECOND_PLATFORM_FLOOR, PRIMARY_PLATFORM_FLOOR] {
            assert!(platform_size_reducer(level, floor) >= floor);
        }
    }
    assert!(platform_size_reducer(u32::MAX, STATIC_PLATFORM_FLOOR) >= STATIC_PLATFORM_FLOOR);
}

#[test]
fn multipliers_grow_linearly() {
    assert_eq!(height_multiplier(2), 35000);
    assert_eq!(height_multiplier(5), 110000);
    assert_eq!(platform_speed(2), 90000);
    assert_eq!(platform_speed(5), 180000);
}

#[test]
fn generation_is_deterministic() {
    for level in 1..=12u32 {
        let a = generate(level);
        let b = generate(level);
        assert_eq!(a.platforms, b.platforms);
        assert_eq!(a.moving_platforms, b.moving_platforms);
        assert_eq!(a.collectibles, b.collectibles);
        assert_eq!(a.hazards, b.hazards);
    }
}

#[test]
fn collectible_counts_per_level() {
    let expected = [8usize, 11, 15, 19, 24, 24, 24];
    for (k, n) in expected.iter().enumerate() {
        let level = k as u32 + 1;
        assert_eq!(collectible_count_for(level), *n);
        assert_eq!(generate_collectibles(level).len(), *n);
    }
    assert_eq!(collectible_count_for(1000), 24);
}

#[test]
fn level_one_has_the_eight_base_collectibles() {
    let c = generate_collectibles(1);
    assert_eq!(c.len(), 8);
    assert_eq!(c[0].position, Point3::new(80000, 80000, -50000));
    assert_eq!(c[7].position, Point3::new(-160000, 445000, 60000));
}

#[test]
fn hazard_counts_per_level() {
    let expected = [8usize, 11, 14, 17, 20, 23, 26, 29, 32, 32];
    for (k, n) in expected.iter().enumerate() {
        let level = k as u32 + 1;
        assert_eq!(hazard_count_for(level), *n);
        assert_eq!(generate_hazards(level).len(), *n);
    }
}

#[test]
fn platform_counts_grow_by_tier() {
    let expected = [4usize, 7, 12, 18, 23, 23];
    for (k, n) in expected.iter().enumerate() {
        assert_eq!(generate_platforms(k as u32 + 1).len(), *n);
    }
}

#[test]
fn platforms_are_raised_and_shrunk() {
    let p1 = generate_platforms(1);
    assert_eq!(p1[0].position, Point3::new(80000, 60000, -50000));
    assert_eq!(p1[0].size, Point3::new(40000, 5000, 40000));
    let p2 = generate_platforms(2);
    assert_eq!(p2[0].position, Point3::new(80000, 210000, -50000));
    assert_eq!(p2[0].size, Point3::new(26000, 3250, 26000));
    assert_eq!(p2[6].position, Point3::new(-160000, 1470000, 60000));
    let p5 = generate_platforms(5);
    assert_eq!(p5[0].size, Point3::new(6000, 750, 6000));
    assert_eq!(p5[22].size, Point3::new(300, 750, 300));
    assert_eq!(p5[22].position, Point3::new(-440000, 15180000, -100000));
}

#[test]
fn collectible_values_follow_level_and_height() {
    let c1 = generate_collectibles(1);
    assert_eq!(c1[0].value, 15);
    assert_eq!(c1[5].value, 16);
    let c2 = generate_collectibles(2);
    assert_eq!(c2[10].position, Point3::new(240000, 2187500, 0));
    assert_eq!(c2[10].value, 35);
}

#[test]
fn collectible_values_at_least_fifteen() {
    for level in 1..=60u32 {
        for c in generate_collectibles(level) {
            assert!(c.value >= 15);
        }
    }
}

#[test]
fn hazards_rise_only_when_elevated() {
    let h1 = generate_hazards(1);
    for h in &h1 {
        assert!(!h.elevated);
        assert_eq!(h.position.y, 10000);
        assert_eq!(h.size, 20000);
    }
    let h2 = generate_hazards(2);
    assert!(!h2[10].elevated);
    assert_eq!(h2[10].position, Point3::new(60000, 10000, -120000));
    assert_eq!(h2[10].size, 20000);
    let h3 = generate_hazards(3);
    assert!(h3[11].elevated);
    assert_eq!(h3[11].position, Point3::new(80000, 480000, -30000));
    assert_eq!(h3[11].size, 25000);
    assert_eq!(h3[13].size, 23000);
    let h5 = generate_hazards(5);
    assert_eq!(h5[16].position, Point3::new(0, 2200000, 60000));
    assert_eq!(h5[16].size, 28000);
}

#[test]
fn moving_platforms_by_level() {
    let m1 = generate_moving_platforms(1);
    assert_eq!(m1.len(), 1);
    assert_eq!(m1[0].start_pos, Point3::new(-40000, 200000, -80000));
    assert_eq!(m1[0].end_pos, Point3::new(120000, 200000, -80000));
    assert_eq!(m1[0].position, m1[0].start_pos);
    assert_eq!(m1[0].size, Point3::new(30000, 5000, 15000));
    assert_eq!(m1[0].speed, 60000);
    assert_eq!(m1[0].direction, Direction::Forward);

    assert_eq!(generate_moving_platforms(2).len(), 1);

    let m3 = generate_moving_platforms(3);
    assert_eq!(m3.len(), 2);
    assert_eq!(m3[0].size, Point3::new(9000, 5000, 4500));
    assert_eq!(m3[1].start_pos, Point3::new(200000, 3000000, 150000));
    assert_eq!(m3[1].end_pos, Point3::new(-200000, 3000000, 150000));
    assert_eq!(m3[1].size, Point3::new(4500, 5000, 4500));
    assert_eq!(m3[1].speed, 216000);

    let m4 = generate_moving_platforms(4);
    assert_eq!(m4.len(), 3);
    assert_eq!(m4[2].start_pos, Point3::new(0, 6800000, 0));
    assert_eq!(m4[2].end_pos, Point3::new(0, 7100000, 0));
    assert_eq!(m4[2].size, Point3::new(1500, 5000, 1500));
    assert_eq!(m4[2].speed, 120000);
}

#[test]
fn generate_gathers_all_parts() {
    let c = generate(4);
    assert_eq!(c.platforms, generate_platforms(4));
    assert_eq!(c.moving_platforms, generate_moving_platforms(4));
    assert_eq!(c.collectibles, generate_collectibles(4));
    assert_eq!(c.hazards, generate_hazards(4));
}

#[test]
fn highest_level_generates_without_overflow() {
    let c = generate(u32::MAX);
    assert_eq!(c.collectibles.len(), 24);
    assert_eq!(c.hazards.len(), 32);
    assert_eq!(c.moving_platforms.len(), 3);
}
