use vstd::prelude::*;

use crate::geometry::Point3;
use crate::level::{
    collectible_count, collectible_count_for, collectibles_spec, generate, is_level_content,
    lemma_level_has_collectibles, LevelContent,
};
use crate::motion::{all_can_advance, advanced, move_platforms};
use crate::proximity::{
    first_collectible_in_reach, first_hazard_in_reach, first_hit, hazard_hits,
    lemma_first_hit_is_first, pickup_hits,
};

verus! {

/// Lives at the start of a session and after a reset.
pub const START_LIVES: u32 = 3;

/// Invulnerability after a hazard hit: 2.5 seconds, in microseconds.
pub const INVULNERABILITY_MICROS: u64 = 2_500_000;

/// A player below this height (-30 units) has fallen off the world.
pub const FALL_LIMIT: i64 = -300000;

/// Height of the spawn point (2 units).
pub const SPAWN_HEIGHT: i64 = 20000;

/// Score awarded per completed level number.
pub const LEVEL_SCORE_BONUS: u64 = 25;

/// Where the player is put back on a fall, a level change or a reset.
pub open spec fn spawn_point() -> Point3 {
    Point3 { x: 0, y: SPAWN_HEIGHT, z: 0 }
}

pub open spec fn zero_vector() -> Point3 {
    Point3 { x: 0, y: 0, z: 0 }
}

/// The player's body as the rules see it.
#[derive(Clone, Copy, Debug, PartialEq, Eq, Structural)]
pub struct Player {
    pub position: Point3,
    pub velocity: Point3,
    /// Microseconds of remaining invulnerability; zero when vulnerable.
    pub invulnerable_timer: u64,
    pub grounded: bool,
}

/// `q` is `p` put back at the spawn point, at rest.
pub open spec fn respawned(p: Player, q: Player) -> bool {
    q == Player { position: spawn_point(), velocity: zero_vector(), ..p }
}

impl Player {
    /// A fresh player at the spawn point, at rest and vulnerable.
    pub fn new() -> (r: Player)
        ensures
            r.position == spawn_point(),
            r.velocity == zero_vector(),
            r.invulnerable_timer == 0,
            !r.grounded,
    {
        Player {
            position: Point3::new(0, SPAWN_HEIGHT, 0),
            velocity: Point3::zero(),
            invulnerable_timer: 0,
            grounded: false,
        }
    }

    fn respawn(&mut self)
        ensures
            respawned(*old(self), *final(self)),
    {
        self.position = Point3::new(0, SPAWN_HEIGHT, 0);
        self.velocity = Point3::zero();
    }
}

/// Vertical speed below which the player counts as standing (0.1 units per second).
pub const JUMP_SPEED_TOLERANCE: i64 = 1000;

/// A jump starts only when it was just pressed and the player is not already
/// rising or falling.
pub fn can_jump(vertical_speed: i64, jump_pressed: bool) -> (r: bool)
    ensures
        r == (jump_pressed && -JUMP_SPEED_TOLERANCE < vertical_speed < JUMP_SPEED_TOLERANCE),
{
    jump_pressed && -JUMP_SPEED_TOLERANCE < vertical_speed && vertical_speed < JUMP_SPEED_TOLERANCE
}

/// Extra lives granted by a pickup that moved the score from `before` to `after`:
/// one for reaching a positive multiple of 100; otherwise one for reaching a
/// positive multiple of 50, unless `before` was a positive multiple of 100.
pub open spec fn pickup_bonus(before: int, after: int) -> int {
    if after > 0 && after % 100 == 0 {
        1
    } else if after > 0 && after % 50 == 0 && (before == 0 || before % 100 != 0) {
        1
    } else {
        0
    }
}

/// Extra lives for completing level `completed`.
pub open spec fn completion_bonus(completed: u32) -> int {
    if completed <= 2 {
        1
    } else if completed <= 4 {
        2
    } else {
        3
    }
}

/// Score, lives, level and the live level content of one play session.
pub struct GameSession {
    pub score: u64,
    pub lives: u32,
    pub level: u32,
    /// Collectibles placed when the current level was generated.
    pub collectibles_in_level: u32,
    pub content: LevelContent,
}

/// The state of a session right after it starts or is reset.
pub open spec fn is_start_state(s: GameSession) -> bool {
    &&& s.score == 0
    &&& s.lives == START_LIVES
    &&& s.level == 1
    &&& s.collectibles_in_level == collectible_count(1)
    &&& is_level_content(s.content, 1)
}

/// Everything but the live collectibles is the same in `a` and `b`.
pub open spec fn same_level_layout(a: GameSession, b: GameSession) -> bool {
    &&& a.level == b.level
    &&& a.collectibles_in_level == b.collectibles_in_level
    &&& a.content.platforms@ == b.content.platforms@
    &&& a.content.moving_platforms@ == b.content.moving_platforms@
    &&& a.content.hazards@ == b.content.hazards@
}

/// Only the lives of `a` and `b` may differ.
pub open spec fn same_but_lives(a: GameSession, b: GameSession) -> bool {
    &&& same_level_layout(a, b)
    &&& a.score == b.score
    &&& a.content.collectibles@ == b.content.collectibles@
}

/// `after` (with player `pa`) is `before` (with player `pb`) once its level
/// was completed: the next level's content, the completion bonus, and the
/// player back at the spawn point.
pub open spec fn level_completed(
    before: GameSession,
    after: GameSession,
    pb: Player,
    pa: Player,
) -> bool {
    &&& before.content.collectibles@.len() == 0
    &&& after.level == before.level + 1
    &&& after.lives == before.lives + completion_bonus(before.level)
    &&& after.score == before.score + before.level * LEVEL_SCORE_BONUS
    &&& after.collectibles_in_level == collectible_count(after.level)
    &&& is_level_content(after.content, after.level)
    &&& respawned(pb, pa)
}

/// Picking up what lies within reach of `p` cannot overflow the score or the lives.
pub open spec fn pickup_fits(s: GameSession, p: Point3) -> bool {
    match first_hit(pickup_hits(p, s.content.collectibles@)) {
        Some(i) => s.lives < u32::MAX && s.score + s.content.collectibles@[i].value <= u64::MAX,
        None => true,
    }
}

/// Completing the current level cannot overflow level, lives or score.
pub open spec fn completion_fits(s: GameSession) -> bool {
    &&& s.level < u32::MAX
    &&& s.lives + 3 <= u32::MAX
    &&& s.score + s.level * LEVEL_SCORE_BONUS <= u64::MAX
}

impl GameSession {
    /// Levels are numbered from one.
    pub open spec fn wf(self) -> bool {
        self.level >= 1
    }

    /// A session at level one with the level's content generated.
    pub fn new() -> (r: GameSession)
        ensures
            is_start_state(r),
            r.wf(),
    {
        let count = collectible_count_for(1);
        GameSession {
            score: 0,
            lives: START_LIVES,
            level: 1,
            collectibles_in_level: count as u32,
            content: generate(1),
        }
    }

    /// The session is over (until a reset) once no life is left.
    pub fn is_game_over(&self) -> (r: bool)
        ensures
            r == (self.lives == 0),
    {
        self.lives == 0
    }

    /// Moves every moving platform of the level for `dt` microseconds.
    pub fn move_platforms(&mut self, dt: u32)
        requires
            all_can_advance(old(self).content.moving_platforms@, dt as int),
        ensures
            final(self).score == old(self).score,
            final(self).lives == old(self).lives,
            final(self).level == old(self).level,
            final(self).collectibles_in_level == old(self).collectibles_in_level,
            final(self).content.platforms@ == old(self).content.platforms@,
            final(self).content.collectibles@ == old(self).content.collectibles@,
            final(self).content.hazards@ == old(self).content.hazards@,
            final(self).content.moving_platforms@.len() == old(self).content.moving_platforms@.len(),
            forall|i: int|
                0 <= i < old(self).content.moving_platforms@.len()
                    ==> final(self).content.moving_platforms@[i] == advanced(
                    #[trigger] old(self).content.moving_platforms@[i],
                    dt as int,
                ),
    {
        move_platforms(&mut self.content.moving_platforms, dt);
    }

    /// Picks up the first collectible within reach of `player_pos`, if any:
    /// adds its value to the score, grants the bonus life the new score earns,
    /// and removes it. Returns the value collected.
    pub fn collect_items(&mut self, player_pos: Point3) -> (r: Option<u64>)
        requires
            pickup_fits(*old(self), player_pos),
        ensures
            same_level_layout(*old(self), *final(self)),
            match first_hit(pickup_hits(player_pos, old(self).content.collectibles@)) {
                None => {
                    &&& r is None
                    &&& final(self).score == old(self).score
                    &&& final(self).lives == old(self).lives
                    &&& final(self).content.collectibles@ == old(self).content.collectibles@
                },
                Some(i) => {
                    let v = old(self).content.collectibles@[i].value;
                    &&& r == Some(v)
                    &&& final(self).score == old(self).score + v
                    &&& final(self).lives == old(self).lives + pickup_bonus(
                        old(self).score as int,
                        old(self).score + v,
                    )
                    &&& final(self).content.collectibles@ == old(
                        self,
                    ).content.collectibles@.remove(i)
                },
            },
    {
        match first_collectible_in_reach(player_pos, &self.content.collectibles) {
            None => None,
            Some(i) => {
                proof {
                    lemma_first_hit_is_first(pickup_hits(player_pos, self.content.collectibles@));
                }
                let c = self.content.collectibles.remove(i);
                let before = self.score;
                assert(old(self).content.collectibles@[i as int] == c);
                self.score = before + c.value;
                if self.score > 0 && self.score % 100 == 0 {
                    self.lives = self.lives + 1;
                } else if self.score > 0 && self.score % 50 == 0 && (before == 0 || before % 100
                    != 0) {
                    self.lives = self.lives + 1;
                }
                Some(c.value)
            },
        }
    }

    /// Counts down the player's invulnerability by `dt` microseconds; then, if
    /// it has run out and a hazard is within reach, takes a life (never below
    /// zero) and makes the player invulnerable again. Returns whether a hit landed.
    pub fn check_hazards(&mut self, player: &mut Player, dt: u32) -> (r: bool)
        ensures
            same_but_lives(*old(self), *final(self)),
            ({
                let t = if old(player).invulnerable_timer >= dt {
                    old(player).invulnerable_timer - dt
                } else {
                    0
                };
                let hit = t == 0 && first_hit(
                    hazard_hits(old(player).position, old(self).content.hazards@),
                ) is Some;
                &&& r == hit
                &&& *final(player) == (Player {
                    invulnerable_timer: if hit {
                        INVULNERABILITY_MICROS
                    } else {
                        t as u64
                    },
                    ..*old(player)
                })
                &&& final(self).lives == if hit && old(self).lives > 0 {
                    old(self).lives - 1
                } else {
                    old(self).lives as int
                }
            }),
    {
        player.invulnerable_timer = player.invulnerable_timer.saturating_sub(dt as u64);
        if player.invulnerable_timer == 0 {
            if first_hazard_in_reach(player.position, &self.content.hazards).is_some() {
                self.lives = self.lives.saturating_sub(1);
                player.invulnerable_timer = INVULNERABILITY_MICROS;
                return true;
            }
        }
        false
    }

    /// Puts a player who fell below `FALL_LIMIT` back at the spawn point, at
    /// rest, and takes a life if any is left. Returns whether that happened.
    pub fn respawn_if_fallen(&mut self, player: &mut Player) -> (r: bool)
        ensures
            same_but_lives(*old(self), *final(self)),
            r == (old(player).position.y < FALL_LIMIT),
            r ==> respawned(*old(player), *final(player)),
            !r ==> *final(player) == *old(player),
            final(self).lives == if r && old(self).lives > 0 {
                old(self).lives - 1
            } else {
                old(self).lives as int
            },
    {
        if player.position.y < FALL_LIMIT {
            player.respawn();
            self.lives = self.lives.saturating_sub(1);
            true
        } else {
            false
        }
    }

    /// Once no collectible is left: advances to the next level, puts the
    /// player back at the spawn point, replaces the level's content, and
    /// awards the completion bonus in lives and `25` points per completed
    /// level number. Returns whether the level was completed.
    pub fn check_level_complete(&mut self, player: &mut Player) -> (r: bool)
        requires
            old(self).content.collectibles@.len() == 0 ==> completion_fits(*old(self)),
        ensures
            old(self).wf() ==> final(self).wf(),
            r == (old(self).content.collectibles@.len() == 0),
            !r ==> *final(player) == *old(player),
            !r ==> final(self).score == old(self).score && final(self).lives == old(self).lives
                && final(self).content.collectibles@ == old(self).content.collectibles@
                && same_level_layout(*old(self), *final(self)),
            r ==> level_completed(*old(self), *final(self), *old(player), *final(player)),
    {
        if self.content.collectibles.len() != 0 {
            return false;
        }
        let completed = self.level;
        self.level = completed + 1;
        player.respawn();
        self.content = generate(self.level);
        let count = collectible_count_for(self.level);
        self.collectibles_in_level = count as u32;
        let bonus: u32 = if completed <= 2 {
            1
        } else if completed <= 4 {
            2
        } else {
            3
        };
        self.lives = self.lives + bonus;
        self.score = self.score + completed as u64 * LEVEL_SCORE_BONUS;
        true
    }

    /// Starts over: score zero, three lives, level one with fresh content, and
    /// the player back at the spawn point, at rest.
    pub fn reset(&mut self, player: &mut Player)
        ensures
            is_start_state(*final(self)),
            final(self).wf(),
            respawned(*old(player), *final(player)),
    {
        self.score = 0;
        self.lives = START_LIVES;
        self.level = 1;
        let count = collectible_count_for(1);
        self.collectibles_in_level = count as u32;
        self.content = generate(1);
        player.respawn();
    }
}

/// Whatever came before, a reset session has score zero, three lives, level
/// one, and exactly the content that generating level one gives.
pub proof fn lemma_reset_matches_fresh_level(s: GameSession, fresh: LevelContent)
    requires
        is_start_state(s),
        is_level_content(fresh, 1),
    ensures
        s.score == 0,
        s.lives == 3,
        s.level == 1,
        s.content.platforms@ == fresh.platforms@,
        s.content.moving_platforms@ == fresh.moving_platforms@,
        s.content.collectibles@ == fresh.collectibles@,
        s.content.hazards@ == fresh.hazards@,
{
}

/// When the last collectible of level `n` is gone and the level is completed,
/// the session is at level `n + 1`, the player stands at the spawn point, and
/// the new level's collectibles, generated for `n + 1`, are not empty.
pub proof fn lemma_completion_refills_collectibles(
    before: GameSession,
    after: GameSession,
    pb: Player,
    pa: Player,
)
    requires
        level_completed(before, after, pb, pa),
    ensures
        after.level == before.level + 1,
        pa.position == spawn_point(),
        after.content.collectibles@ == collectibles_spec(after.level),
        after.content.collectibles@.len() > 0,
{
    lemma_level_has_collectibles(after.level);
}

} // verus!
