//! Obstacles: placement of a fresh spawn, and per-frame motion and reaping.
//!
//! Obstacles are uniform rectangles of fixed size.  They appear at the right
//! edge of the ground span with a randomized vertical offset, scroll left at
//! [`GAME_SPEED`], and are removed the moment their horizontal position falls
//! strictly below the left edge `-GROUND_EDGE` — no partial-offscreen grace
//! period.

use vstd::prelude::*;

use crate::consts::GAME_SPEED;
use crate::consts::GROUND_EDGE;
use crate::consts::GROUND_LEVEL;
use crate::consts::MAX_DT;
use crate::consts::MAX_SPAWN_OFFSET;
use crate::seq_util::lemma_filter_empty;
use crate::seq_util::lemma_filter_push;

verus! {

/// One live obstacle.  Its size is the constant
/// [`crate::consts::OBSTACLE_WIDTH`] by [`crate::consts::OBSTACLE_HEIGHT`]
/// box, so only the position is stored, in milli-units.
#[derive(Clone, Copy, Debug, PartialEq, Eq, Structural)]
pub struct Obstacle {
    pub x: i64,
    pub y: i64,
}

/// The mathematical value of an [`Obstacle`], with unbounded integers.
#[verifier::ext_equal]
pub struct ObstacleModel {
    pub x: int,
    pub y: int,
}

impl View for Obstacle {
    type V = ObstacleModel;

    open spec fn view(&self) -> ObstacleModel {
        ObstacleModel { x: self.x as int, y: self.y as int }
    }
}

impl DeepView for Obstacle {
    type V = ObstacleModel;

    open spec fn deep_view(&self) -> ObstacleModel {
        self.view()
    }
}

/// Validity of a live obstacle: it sits within the ground span (spawned at
/// the right edge, reaped strictly past the left one) and at one of the 50
/// whole-unit spawn offsets above ground level.
pub open spec fn obstacle_ok(o: ObstacleModel) -> bool {
    &&& -GROUND_EDGE <= o.x <= GROUND_EDGE
    &&& GROUND_LEVEL <= o.y <= GROUND_LEVEL + MAX_SPAWN_OFFSET
}

/// Where a spawn with random draw `r` is placed: at the right edge of the
/// ground span, a whole number of world units (`r` reduced modulo 50) above
/// ground level.
pub open spec fn spawn_position(r: u32) -> ObstacleModel {
    ObstacleModel { x: GROUND_EDGE as int, y: GROUND_LEVEL + (r as int % 50) * 1000 }
}

/// Builds the obstacle for a frame whose spawn timer fired, from the random
/// draw handed back by the entropy source.  Exact for every draw, so a fixed
/// seed reproduces an identical obstacle sequence.
pub fn place_obstacle(r: u32) -> (o: Obstacle)
    ensures
        o@ == spawn_position(r),
        obstacle_ok(o@),
{
    let offset = (r % 50) as i64 * 1000;
    Obstacle { x: GROUND_EDGE, y: GROUND_LEVEL + offset }
}

/// One obstacle after a frame's scroll of `dt` milliseconds.
pub open spec fn moved_obstacle(o: ObstacleModel, dt: int) -> ObstacleModel {
    ObstacleModel { x: o.x - GAME_SPEED * dt, ..o }
}

/// Whether an obstacle is still on the ground span after a move: reaping
/// removes exactly the obstacles whose position fell strictly below the left
/// edge, so `x == -GROUND_EDGE` is still live.
pub open spec fn still_live(o: ObstacleModel) -> bool {
    o.x >= -GROUND_EDGE
}

/// The scroll of one frame, as a function on obstacles.
pub open spec fn mover(dt: int) -> spec_fn(ObstacleModel) -> ObstacleModel {
    |o: ObstacleModel| moved_obstacle(o, dt)
}

/// The reaping test, as a predicate on obstacles.
pub open spec fn live_pred() -> spec_fn(ObstacleModel) -> bool {
    |o: ObstacleModel| still_live(o)
}

/// The live obstacles after a frame: every obstacle advanced left by
/// `GAME_SPEED * dt`, keeping, in order, exactly those that did not pass the
/// left edge.
pub open spec fn move_reap_model(obs: Seq<ObstacleModel>, dt: int) -> Seq<ObstacleModel> {
    obs.map_values(mover(dt)).filter(live_pred())
}

/// Advances every live obstacle left by `GAME_SPEED * dt` and removes the
/// ones that passed the left edge of the ground span.
pub fn move_obstacles(obstacles: &mut Vec<Obstacle>, dt: i64)
    requires
        0 <= dt <= MAX_DT,
        forall|i: int| 0 <= i < old(obstacles).deep_view().len() ==> obstacle_ok(
            #[trigger] old(obstacles).deep_view()[i],
        ),
    ensures
        final(obstacles).deep_view() == move_reap_model(old(obstacles).deep_view(), dt as int),
        forall|i: int| 0 <= i < final(obstacles).deep_view().len() ==> obstacle_ok(
            #[trigger] final(obstacles).deep_view()[i],
        ),
{
    let ghost orig = old(obstacles).deep_view();
    let mut kept: Vec<Obstacle> = Vec::new();
    proof {
        assert(orig.take(0).map_values(mover(dt as int)) =~= Seq::<ObstacleModel>::empty());
        lemma_filter_empty(live_pred());
        assert(kept.deep_view() =~= Seq::<ObstacleModel>::empty());
    }
    let mut i: usize = 0;
    while i < obstacles.len()
        invariant
            0 <= i <= orig.len(),
            obstacles.deep_view() == orig,
            0 <= dt <= MAX_DT,
            forall|j: int| 0 <= j < orig.len() ==> obstacle_ok(#[trigger] orig[j]),
            kept.deep_view() == orig.take(i as int).map_values(mover(dt as int)).filter(live_pred()),
            forall|j: int| 0 <= j < kept.deep_view().len() ==> obstacle_ok(
                #[trigger] kept.deep_view()[j],
            ),
        decreases orig.len() - i,
    {
        let o = obstacles[i];
        proof {
            assert(o@ == orig[i as int]);
            assert(obstacle_ok(o@));
            assert(orig.take(i as int + 1) =~= orig.take(i as int).push(o@));
            assert(orig.take(i as int + 1).map_values(mover(dt as int)) =~= orig.take(
                i as int,
            ).map_values(mover(dt as int)).push(mover(dt as int)(o@)));
            lemma_filter_push(orig.take(i as int).map_values(mover(dt as int)), mover(dt as int)(o@), live_pred());
        }
        let nx = o.x - GAME_SPEED * dt;
        proof {
            assert(live_pred()(mover(dt as int)(o@)) == (nx >= -GROUND_EDGE));
        }
        if nx >= -GROUND_EDGE {
            let moved = Obstacle { x: nx, y: o.y };
            proof {
                assert(moved@ == mover(dt as int)(o@));
            }
            let ghost kept_prev = kept.deep_view();
            kept.push(moved);
            proof {
                assert(kept.deep_view() =~= kept_prev.push(moved@));
            }
        }
        i += 1;
    }
    proof {
        assert(orig.take(orig.len() as int) =~= orig);
    }
    *obstacles = kept;
}

} // verus!
