use vstd::prelude::*;

use crate::geometry::{is_within, within, Point3};
use crate::level::{Collectible, Hazard};

verus! {

/// A collectible closer than this (2.5 units) is picked up.
pub const PICKUP_RADIUS: u32 = 25000;

/// A hazard higher than this (50 units) has the wider detection radius.
pub const HIGH_HAZARD_HEIGHT: i64 = 500000;

/// Detection radius of hazards above `HIGH_HAZARD_HEIGHT` (2.0 units).
pub const HIGH_HAZARD_RADIUS: u32 = 20000;

/// Detection radius of all other hazards (1.8 units).
pub const LOW_HAZARD_RADIUS: u32 = 18000;

/// Index of the first `true` in `hits`, if any.
pub open spec fn first_hit(hits: Seq<bool>) -> Option<int>
    decreases hits.len(),
{
    if hits.len() == 0 {
        None
    } else {
        match first_hit(hits.drop_last()) {
            Some(i) => Some(i),
            None => if hits.last() {
                Some(hits.len() - 1)
            } else {
                None
            },
        }
    }
}

/// Which collectibles lie within pickup range of `p`.
pub open spec fn pickup_hits(p: Point3, cs: Seq<Collectible>) -> Seq<bool> {
    Seq::new(cs.len(), |i: int| within(p, cs[i].position, PICKUP_RADIUS as int))
}

/// Detection radius of a hazard: wider for hazards high above the ground.
pub open spec fn hazard_radius(h: Hazard) -> int {
    if h.position.y > HIGH_HAZARD_HEIGHT {
        HIGH_HAZARD_RADIUS as int
    } else {
        LOW_HAZARD_RADIUS as int
    }
}

/// Which hazards lie within their detection radius of `p`.
pub open spec fn hazard_hits(p: Point3, hs: Seq<Hazard>) -> Seq<bool> {
    Seq::new(hs.len(), |i: int| within(p, hs[i].position, hazard_radius(hs[i])))
}

/// `first_hit` agrees with the first hit of any prefix that already has one.
proof fn lemma_first_hit_of_prefix(s: Seq<bool>, k: int)
    requires
        0 <= k <= s.len(),
        first_hit(s.take(k)) is Some,
    ensures
        first_hit(s) == first_hit(s.take(k)),
    decreases s.len(),
{
    if k < s.len() {
        assert(s.drop_last().take(k) =~= s.take(k));
        lemma_first_hit_of_prefix(s.drop_last(), k);
    } else {
        assert(s.take(k) =~= s);
    }
}

/// A found first hit is a hit, and nothing before it is.
pub proof fn lemma_first_hit_is_first(s: Seq<bool>)
    ensures
        match first_hit(s) {
            Some(i) => 0 <= i < s.len() && s[i] && forall|j: int| 0 <= j < i ==> !s[j],
            None => forall|j: int| 0 <= j < s.len() ==> !s[j],
        },
    decreases s.len(),
{
    if s.len() > 0 {
        lemma_first_hit_is_first(s.drop_last());
        match first_hit(s.drop_last()) {
            Some(i) => {
                assert forall|j: int| 0 <= j < i implies !s[j] by {
                    assert(s[j] == s.drop_last()[j]);
                }
            },
            None => {
                assert forall|j: int| 0 <= j < s.len() - 1 implies !s[j] by {
                    assert(s[j] == s.drop_last()[j]);
                }
            },
        }
    }
}

/// Position of the first `true` in `hits`.
pub fn first_true(hits: &Vec<bool>) -> (r: Option<usize>)
    ensures
        match r {
            Some(i) => first_hit(hits@) == Some(i as int),
            None => first_hit(hits@) is None,
        },
{
    let n = hits.len();
    let mut i: usize = 0;
    while i < n
        invariant
            n == hits@.len(),
            0 <= i <= n,
            first_hit(hits@.take(i as int)) is None,
        decreases n - i,
    {
        assert(hits@.take(i + 1).drop_last() =~= hits@.take(i as int));
        if hits[i] {
            proof {
                lemma_first_hit_of_prefix(hits@, i + 1);
            }
            return Some(i);
        }
        i += 1;
    }
    assert(hits@.take(n as int) =~= hits@);
    None
}

/// For each collectible, whether `p` is within pickup range of it.
pub fn collectible_hits(p: Point3, cs: &Vec<Collectible>) -> (r: Vec<bool>)
    ensures
        r@ == pickup_hits(p, cs@),
{
    let mut v: Vec<bool> = Vec::new();
    let mut i: usize = 0;
    while i < cs.len()
        invariant
            0 <= i <= cs@.len(),
            v@.len() == i,
            forall|j: int| 0 <= j < i ==> v@[j] == within(p, cs@[j].position, PICKUP_RADIUS as int),
        decreases cs@.len() - i,
    {
        v.push(is_within(p, cs[i].position, PICKUP_RADIUS));
        i += 1;
    }
    assert(v@ =~= pickup_hits(p, cs@));
    v
}

/// Detection radius of `h`.
pub fn detection_radius(h: &Hazard) -> (r: u32)
    ensures
        r == hazard_radius(*h),
{
    if h.position.y > HIGH_HAZARD_HEIGHT {
        HIGH_HAZARD_RADIUS
    } else {
        LOW_HAZARD_RADIUS
    }
}

/// For each hazard, whether `p` is within its detection radius.
pub fn hazard_hits_at(p: Point3, hs: &Vec<Hazard>) -> (r: Vec<bool>)
    ensures
        r@ == hazard_hits(p, hs@),
{
    let mut v: Vec<bool> = Vec::new();
    let mut i: usize = 0;
    while i < hs.len()
        invariant
            0 <= i <= hs@.len(),
            v@.len() == i,
            forall|j: int|
                0 <= j < i ==> v@[j] == within(p, hs@[j].position, hazard_radius(hs@[j])),
        decreases hs@.len() - i,
    {
        let radius = detection_radius(&hs[i]);
        v.push(is_within(p, hs[i].position, radius));
        i += 1;
    }
    assert(v@ =~= hazard_hits(p, hs@));
    v
}

/// Index of the first collectible within pickup range of `p`.
pub fn first_collectible_in_reach(p: Point3, cs: &Vec<Collectible>) -> (r: Option<usize>)
    ensures
        match r {
            Some(i) => first_hit(pickup_hits(p, cs@)) == Some(i as int),
            None => first_hit(pickup_hits(p, cs@)) is None,
        },
{
    let hits = collectible_hits(p, cs);
    first_true(&hits)
}

/// Index of the first hazard whose detection radius holds `p`.
pub fn first_hazard_in_reach(p: Point3, hs: &Vec<Hazard>) -> (r: Option<usize>)
    ensures
        match r {
            Some(i) => first_hit(hazard_hits(p, hs@)) == Some(i as int),
            None => first_hit(hazard_hits(p, hs@)) is None,
        },
{
    let hits = hazard_hits_at(p, hs);
    first_true(&hits)
}

} // verus!
