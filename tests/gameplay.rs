use platformer::geometry::{is_within, Point3};
use platformer::level::{generate, Collectible, Hazard, LevelContent};
use platformer::motion::{move_platforms, Direction, MovingPlatform};
use platformer::proximity::{first_collectible_in_reach, first_hazard_in_reach, first_true};
use platformer::session::{can_jump, GameSession, Player, INVULNERABILITY_MICROS};

fn session_with(collectibles: Vec<Collectible>, hazards: Vec<Hazard>) -> GameSession {
    GameSession {
        score: 0,
        lives: 3,
        level: 1,
        collectibles_in_level: collectibles.len() as u32,
        content: LevelContent {
            platforms: Vec::new(),
            moving_platforms: Vec::new(),
            collectibles,
            hazards,
        },
    }
}

fn coin(x: i64, value: u64) -> Collectible {
    Collectible { position: Point3::new(x, 0, 0), value }
}

fn ground_hazard(x: i64) -> Hazard {
    Hazard { position: Point3::new(x, 10000, 0), size: 20000, elevated: false }
}

fn player_at(p: Point3) -> Player {
    let mut player = Player::new();
    player.position = p;
    player
}

#[test]
fn distance_is_strict() {
    let o = Point3::new(0, 0, 0);
    assert!(is_within(o, Point3::new(10000, 0, 0), 18000));
    assert!(!is_within(o, Point3::new(18000, 0, 0), 18000));
    assert!(is_within(o, Point3::new(10000, 10000, 10000), 18000));
    assert!(!is_within(o, Point3::new(11000, 11000, 11000), 18000));
    assert!(!is_within(Point3::new(i64::MIN, 0, 0), Point3::new(i64::MAX, 0, 0), u32::MAX));
}

#[test]
fn first_true_finds_earliest() {
    assert_eq!(first_true(&vec![false, true, true]), Some(1));
    assert_eq!(first_true(&vec![false, false]), None);
    assert_eq!(first_true(&Vec::new()), None);
}

#[test]
fn bonus_life_rule_scenario() {
    let mut s = session_with(vec![coin(0, 50), coin(0, 50)], Vec::new());
    let o = Point3::new(0, 0, 0);
    assert_eq!(s.collect_items(o), Some(50));
    assert_eq!(s.score, 50);
    assert_eq!(s.lives, 4);
    assert_eq!(s.collect_items(o), Some(50));
    assert_eq!(s.score, 100);
    assert_eq!(s.lives, 5);
    assert!(s.content.collectibles.is_empty());
}

#[test]
fn fifty_branch_grants_one_life() {
    let mut s = session_with(vec![coin(0, 40)], Vec::new());
    s.score = 10;
    s.collect_items(Point3::new(0, 0, 0));
    assert_eq!(s.score, 50);
    assert_eq!(s.lives, 4);
}

#[test]
fn fifty_branch_skipped_after_hundred() {
    let mut s = session_with(vec![coin(0, 50)], Vec::new());
    s.score = 100;
    s.collect_items(Point3::new(0, 0, 0));
    assert_eq!(s.score, 150);
    assert_eq!(s.lives, 3);
}

#[test]
fn hundred_branch_grants_one_life() {
    let mut s = session_with(vec![coin(0, 40)], Vec::new());
    s.score = 60;
    s.collect_items(Point3::new(0, 0, 0));
    assert_eq!(s.score, 100);
    assert_eq!(s.lives, 4);
}

#[test]
fn one_pickup_per_tick_in_order() {
    let mut s = session_with(vec![coin(100000, 7), coin(0, 20), coin(10000, 30)], Vec::new());
    let o = Point3::new(0, 0, 0);
    assert_eq!(first_collectible_in_reach(o, &s.content.collectibles), Some(1));
    assert_eq!(s.collect_items(o), Some(20));
    assert_eq!(s.score, 20);
    assert_eq!(s.content.collectibles, vec![coin(100000, 7), coin(10000, 30)]);
}

#[test]
fn pickup_out_of_reach_does_nothing() {
    let mut s = session_with(vec![coin(25000, 20)], Vec::new());
    assert_eq!(s.collect_items(Point3::new(0, 0, 0)), None);
    assert_eq!(s.score, 0);
    assert_eq!(s.content.collectibles.len(), 1);
}

#[test]
fn damage_rule_scenario() {
    let mut s = session_with(Vec::new(), vec![ground_hazard(0)]);
    let mut player = player_at(Point3::new(10000, 10000, 0));
    assert!(s.check_hazards(&mut player, 0));
    assert_eq!(s.lives, 2);
    assert_eq!(player.invulnerable_timer, INVULNERABILITY_MICROS);
    assert_eq!(player.invulnerable_timer, 2_500_000);
    assert!(!s.check_hazards(&mut player, 1_000_000));
    assert_eq!(player.invulnerable_timer, 1_500_000);
    assert_eq!(s.lives, 2);
}

#[test]
fn invulnerability_runs_out() {
    let mut s = session_with(Vec::new(), vec![ground_hazard(0)]);
    let mut player = player_at(Point3::new(10000, 10000, 0));
    player.invulnerable_timer = 400_000;
    assert!(s.check_hazards(&mut player, 500_000));
    assert_eq!(s.lives, 2);
    assert_eq!(player.invulnerable_timer, 2_500_000);
}

#[test]
fn damage_saturates_at_zero_lives() {
    let mut s = session_with(Vec::new(), vec![ground_hazard(0)]);
    s.lives = 0;
    let mut player = player_at(Point3::new(0, 10000, 0));
    assert!(s.check_hazards(&mut player, 16_000));
    assert_eq!(s.lives, 0);
    assert!(s.is_game_over());
}

#[test]
fn high_hazards_reach_further() {
    let high = Hazard { position: Point3::new(0, 600000, 0), size: 28000, elevated: true };
    let low = Hazard { position: Point3::new(0, 400000, 0), size: 28000, elevated: true };
    let near_high = Point3::new(19000, 600000, 0);
    let near_low = Point3::new(19000, 400000, 0);
    assert_eq!(first_hazard_in_reach(near_high, &vec![high]), Some(0));
    assert_eq!(first_hazard_in_reach(near_low, &vec![low]), None);
}

#[test]
fn fall_rule_scenario() {
    let mut s = session_with(Vec::new(), Vec::new());
    let mut player = player_at(Point3::new(50000, -310000, 30000));
    player.velocity = Point3::new(1000, -200000, 0);
    assert!(s.respawn_if_fallen(&mut player));
    assert_eq!(player.position, Point3::new(0, 20000, 0));
    assert_eq!(player.velocity, Point3::new(0, 0, 0));
    assert_eq!(s.lives, 2);
}

#[test]
fn fall_with_no_lives_still_respawns() {
    let mut s = session_with(Vec::new(), Vec::new());
    s.lives = 0;
    let mut player = player_at(Point3::new(0, -400000, 0));
    assert!(s.respawn_if_fallen(&mut player));
    assert_eq!(player.position, Point3::new(0, 20000, 0));
    assert_eq!(s.lives, 0);
}

#[test]
fn no_fall_above_limit() {
    let mut s = session_with(Vec::new(), Vec::new());
    let mut player = player_at(Point3::new(0, -300000, 0));
    assert!(!s.respawn_if_fallen(&mut player));
    assert_eq!(player.position, Point3::new(0, -300000, 0));
    assert_eq!(s.lives, 3);
}

#[test]
fn level_complete_scenario() {
    let mut s = session_with(vec![coin(0, 15)], Vec::new());
    let mut player = player_at(Point3::new(0, 0, 0));
    assert!(!s.check_level_complete(&mut player));
    assert_eq!(s.level, 1);
    s.collect_items(Point3::new(0, 0, 0));
    player.position = Point3::new(80000, 80000, -50000);
    assert!(s.check_level_complete(&mut player));
    assert_eq!(s.level, 2);
    assert_eq!(player.position, Point3::new(0, 20000, 0));
    assert_eq!(s.lives, 4);
    assert_eq!(s.score, 15 + 25);
    let fresh = generate(2);
    assert_eq!(s.content.collectibles, fresh.collectibles);
    assert_eq!(s.content.platforms, fresh.platforms);
    assert_eq!(s.content.hazards, fresh.hazards);
    assert_eq!(s.content.collectibles.len(), 11);
    assert_eq!(s.collectibles_in_level, 11);
}

#[test]
fn completion_bonus_grows_with_level() {
    for (level, lives, score) in [(2u32, 1u32, 50u64), (3, 2, 75), (4, 2, 100), (5, 3, 125), (9, 3, 225)] {
        let mut s = session_with(Vec::new(), Vec::new());
        s.level = level;
        let mut player = Player::new();
        assert!(s.check_level_complete(&mut player));
        assert_eq!(s.level, level + 1);
        assert_eq!(s.lives, 3 + lives);
        assert_eq!(s.score, score);
    }
}

#[test]
fn reset_scenario() {
    let mut s = GameSession::new();
    let mut player = Player::new();
    s.score = 420;
    s.lives = 0;
    s.level = 6;
    s.content = generate(6);
    player.position = Point3::new(5, 6, 7);
    s.reset(&mut player);
    assert_eq!((s.score, s.lives, s.level), (0, 3, 1));
    let fresh = generate(1);
    assert_eq!(s.content.platforms, fresh.platforms);
    assert_eq!(s.content.moving_platforms, fresh.moving_platforms);
    assert_eq!(s.content.collectibles, fresh.collectibles);
    assert_eq!(s.content.hazards, fresh.hazards);
    assert_eq!(s.collectibles_in_level, 8);
    assert_eq!(player.position, Point3::new(0, 20000, 0));
    assert_eq!(player.velocity, Point3::new(0, 0, 0));
}

#[test]
fn new_session_starts_at_level_one() {
    let s = GameSession::new();
    assert_eq!((s.score, s.lives, s.level, s.collectibles_in_level), (0, 3, 1, 8));
    assert_eq!(s.content.collectibles.len(), 8);
    assert!(!s.is_game_over());
}

#[test]
fn jump_needs_press_and_rest() {
    assert!(can_jump(0, true));
    assert!(can_jump(999, true));
    assert!(!can_jump(1000, true));
    assert!(!can_jump(-1000, true));
    assert!(!can_jump(0, false));
}

fn platform(start: Point3, end: Point3, speed: i64, direction: Direction) -> MovingPlatform {
    MovingPlatform { position: start, start_pos: start, end_pos: end, size: Point3::new(1, 1, 1), speed, direction }
}

#[test]
fn horizontal_platform_moves_and_turns() {
    let mut p = platform(Point3::new(-40000, 0, 0), Point3::new(120000, 0, 0), 60000, Direction::Forward);
    p.advance(1_000_000);
    assert_eq!(p.position, Point3::new(20000, 0, 0));
    assert_eq!(p.direction, Direction::Forward);
    p.advance(2_000_000);
    assert_eq!(p.position.x, 140000);
    assert_eq!(p.direction, Direction::Backward);
    p.advance(500_000);
    assert_eq!(p.position.x, 110000);
    assert_eq!(p.direction, Direction::Backward);
    p.advance(3_000_000);
    assert_eq!(p.position.x, -70000);
    assert_eq!(p.direction, Direction::Forward);
}

#[test]
fn vertical_platform_moves_along_y() {
    let mut p = platform(Point3::new(0, 100000, 0), Point3::new(0, 400000, 0), 120000, Direction::Forward);
    p.advance(2_500_000);
    assert_eq!(p.position, Point3::new(0, 400000, 0));
    assert_eq!(p.direction, Direction::Backward);
    p.advance(16_667);
    assert_eq!(p.position.y, 400000 - 2000);
}

#[test]
fn small_vertical_offset_stays_horizontal() {
    let mut p = platform(Point3::new(0, 0, 0), Point3::new(100000, 50000, 0), 10000, Direction::Forward);
    p.advance(1_000_000);
    assert_eq!(p.position, Point3::new(10000, 0, 0));
}

#[test]
fn session_moves_all_platforms() {
    let mut s = GameSession::new();
    let before = s.content.moving_platforms[0];
    s.move_platforms(500_000);
    assert_eq!(s.content.moving_platforms[0].position.x, before.position.x + 30000);
    let mut v = vec![platform(Point3::new(0, 0, 0), Point3::new(10, 0, 0), 1_000_000, Direction::Forward)];
    move_platforms(&mut v, 1);
    assert_eq!(v[0].position.x, 1);
}

#[test]
fn advance_check_guards_coordinate_range() {
    let p = platform(Point3::new(0, 0, 0), Point3::new(100000, 0, 0), 10000, Direction::Forward);
    assert!(p.can_advance_by(1_000_000));
    let edge = platform(Point3::new(i64::MAX - 5, 0, 0), Point3::new(i64::MAX, 0, 0), 10_000_000, Direction::Forward);
    assert!(!edge.can_advance_by(1_000_000));
    assert!(edge.can_advance_by(0));
    let backwards = platform(Point3::new(0, 0, 0), Point3::new(1, 0, 0), -1, Direction::Forward);
    assert!(!backwards.can_advance_by(1));
}
