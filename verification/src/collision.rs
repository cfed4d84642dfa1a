//! Axis-aligned collision between the entity and the live obstacles.
//!
//! The test compares, on each axis, the distance between the two positions
//! with the sum of the half-extents, using the entity's current (possibly
//! crouched) size.  Every overlapping obstacle is removed the frame its
//! overlap is first detected, and each removal costs exactly one point of
//! health; health never goes below zero (the decrement is skipped at zero,
//! a guarded invariant rather than a runtime failure).

use vstd::prelude::*;

use crate::consts::GRAVITY;
use crate::consts::GROUND_LEVEL;
use crate::consts::JUMP_FORCE;
use crate::consts::MAX_RISE;
use crate::consts::OBSTACLE_HEIGHT;
use crate::consts::OBSTACLE_WIDTH;
use crate::consts::PLAYER_X;
use crate::entity::entity_ok;
use crate::entity::Entity;
use crate::entity::EntityModel;
use crate::obstacle::obstacle_ok;
use crate::obstacle::Obstacle;
use crate::obstacle::ObstacleModel;
use crate::seq_util::lemma_filter_empty;
use crate::seq_util::lemma_filter_push;

verus! {

/// Absolute value of a mathematical integer.
pub open spec fn abs_val(x: int) -> int {
    if x < 0 {
        -x
    } else {
        x
    }
}

/// Axis-aligned overlap between the entity (at its fixed horizontal
/// position, with its current size) and one obstacle: on each axis the
/// centre distance is at most the sum of the half-extents.  Both sides of
/// each comparison are doubled, which is exact in integers.
pub open spec fn overlaps(e: EntityModel, o: ObstacleModel) -> bool {
    &&& 2 * abs_val(PLAYER_X - o.x) <= e.width + OBSTACLE_WIDTH
    &&& 2 * abs_val(e.y - o.y) <= e.height + OBSTACLE_HEIGHT
}

/// The overlap test for a fixed entity, as a predicate on obstacles.
pub open spec fn hit_pred(e: EntityModel) -> spec_fn(ObstacleModel) -> bool {
    |o: ObstacleModel| overlaps(e, o)
}

/// The complement of [`hit_pred`]: the obstacles that survive the frame.
pub open spec fn miss_pred(e: EntityModel) -> spec_fn(ObstacleModel) -> bool {
    |o: ObstacleModel| !overlaps(e, o)
}

/// The obstacles left after collision resolution: in order, exactly those
/// that do not overlap the entity.
pub open spec fn survivors(e: EntityModel, obs: Seq<ObstacleModel>) -> Seq<ObstacleModel> {
    obs.filter(miss_pred(e))
}

/// How many obstacles overlap the entity this frame.
pub open spec fn hit_count(e: EntityModel, obs: Seq<ObstacleModel>) -> int {
    obs.filter(hit_pred(e)).len() as int
}

/// Health after taking `hits` one-point decrements, never dropping below
/// zero.
pub open spec fn damaged_health(health: int, hits: int) -> int {
    if hits >= health {
        0
    } else {
        health - hits
    }
}

/// Resolves this frame's collisions: removes every obstacle whose box
/// overlaps the entity's current box, and decrements the entity's health by
/// one for each removal, stopping at zero.  Position, velocity and size are
/// untouched.
pub fn detect_collision(player: &mut Entity, obstacles: &mut Vec<Obstacle>)
    requires
        old(player).wf(),
        forall|i: int| 0 <= i < old(obstacles).deep_view().len() ==> obstacle_ok(
            #[trigger] old(obstacles).deep_view()[i],
        ),
    ensures
        final(obstacles).deep_view() == survivors(old(player)@, old(obstacles).deep_view()),
        final(player)@ == (EntityModel {
            health: damaged_health(
                old(player)@.health,
                hit_count(old(player)@, old(obstacles).deep_view()),
            ),
            ..old(player)@
        }),
        final(player).wf(),
        forall|i: int| 0 <= i < final(obstacles).deep_view().len() ==> obstacle_ok(
            #[trigger] final(obstacles).deep_view()[i],
        ),
{
    let ghost e = old(player)@;
    let ghost orig = old(obstacles).deep_view();
    let mut kept: Vec<Obstacle> = Vec::new();
    proof {
        assert(orig.take(0) =~= Seq::<ObstacleModel>::empty());
        lemma_filter_empty(miss_pred(e));
        lemma_filter_empty(hit_pred(e));
        assert(kept.deep_view() =~= Seq::<ObstacleModel>::empty());
    }
    let mut i: usize = 0;
    while i < obstacles.len()
        invariant
            0 <= i <= orig.len(),
            obstacles.deep_view() == orig,
            forall|j: int| 0 <= j < orig.len() ==> obstacle_ok(#[trigger] orig[j]),
            e == old(player)@,
            old(player).wf(),
            player.y == old(player).y,
            player.vy == old(player).vy,
            player.width == old(player).width,
            player.height == old(player).height,
            player.base_width == old(player).base_width,
            player.base_height == old(player).base_height,
            player@.health == damaged_health(e.health, hit_count(e, orig.take(i as int))),
            kept.deep_view() == survivors(e, orig.take(i as int)),
            forall|j: int| 0 <= j < kept.deep_view().len() ==> obstacle_ok(
                #[trigger] kept.deep_view()[j],
            ),
        decreases orig.len() - i,
    {
        let o = obstacles[i];
        proof {
            assert(o@ == orig[i as int]);
            assert(obstacle_ok(o@));
            assert(orig.take(i as int + 1) =~= orig.take(i as int).push(o@));
            lemma_filter_push(orig.take(i as int), o@, miss_pred(e));
            lemma_filter_push(orig.take(i as int), o@, hit_pred(e));
            assert(hit_pred(e)(o@) == overlaps(e, o@));
            assert(miss_pred(e)(o@) == !overlaps(e, o@));
            assert(e.y <= GROUND_LEVEL + MAX_RISE) by (nonlinear_arith)
                requires
                    e.vy * e.vy + 2 * (-GRAVITY) * (e.y - GROUND_LEVEL) <= JUMP_FORCE * JUMP_FORCE,
                    GRAVITY == -4,
                    JUMP_FORCE == 1000,
                    GROUND_LEVEL == -100_000,
                    MAX_RISE == 125_000,
            ;
        }
        let dx = PLAYER_X - o.x;
        let adx = if dx < 0 {
            -dx
        } else {
            dx
        };
        let dy = player.y - o.y;
        let ady = if dy < 0 {
            -dy
        } else {
            dy
        };
        let hit = 2 * adx <= player.width + OBSTACLE_WIDTH && 2 * ady <= player.height
            + OBSTACLE_HEIGHT;
        proof {
            assert(hit == overlaps(e, o@));
        }
        if hit {
            if player.health > 0 {
                player.health = player.health - 1;
            }
        } else {
            let ghost kept_prev = kept.deep_view();
            kept.push(o);
            proof {
                assert(kept.deep_view() =~= kept_prev.push(o@));
            }
        }
        i += 1;
    }
    proof {
        assert(orig.take(orig.len() as int) =~= orig);
    }
    *obstacles = kept;
}

} // verus!
