//! The controllable entity and its per-frame physics.
//!
//! Each frame, in this order: a buffered jump press may set the vertical
//! velocity, buffered crouch events may change the bounding-box height,
//! gravity is applied to the velocity, and the position is integrated and
//! clamped to the ground (an inelastic landing that zeroes the velocity).

use vstd::prelude::*;

use crate::consts::GRAVITY;
use crate::consts::GROUND_LEVEL;
use crate::consts::JUMP_FORCE;
use crate::consts::MAX_DT;
use crate::consts::MAX_FALL_SPEED;
use crate::consts::MAX_RISE;
use crate::consts::PLAYER_HEIGHT;
use crate::consts::PLAYER_WIDTH;
use crate::consts::START_HEALTH;
use crate::input::has_jump_press;
use crate::input::contains_jump_press;
use crate::input::Key;
use crate::input::KeyEvent;

verus! {

/// The one controllable entity of a session.  Its horizontal position is
/// fixed at [`crate::consts::PLAYER_X`]; only the vertical axis is dynamic.
/// `width`/`height` are the current bounding box (the height shrinks while
/// crouching), `base_width`/`base_height` the immutable reference size.
#[derive(Clone, Copy, Debug, PartialEq, Eq, Structural)]
pub struct Entity {
    pub y: i64,
    pub vy: i64,
    pub width: i64,
    pub height: i64,
    pub base_width: i64,
    pub base_height: i64,
    pub health: u32,
}

/// The mathematical value of an [`Entity`], with unbounded integers.
#[verifier::ext_equal]
pub struct EntityModel {
    pub y: int,
    pub vy: int,
    pub width: int,
    pub height: int,
    pub base_width: int,
    pub base_height: int,
    pub health: int,
}

impl View for Entity {
    type V = EntityModel;

    open spec fn view(&self) -> EntityModel {
        EntityModel {
            y: self.y as int,
            vy: self.vy as int,
            width: self.width as int,
            height: self.height as int,
            base_width: self.base_width as int,
            base_height: self.base_height as int,
            health: self.health as int,
        }
    }
}

/// Validity of an entity between frames.
///
/// The position never sits below the ground, and the discrete energy
/// `vy^2 + 2*(-GRAVITY)*(y - GROUND_LEVEL)` never exceeds that of a fresh
/// jump: gravity-then-integrate can only lower it, landing resets it to
/// zero, and a jump (accepted only on the ground) restores exactly the bound.
/// That caps the speed by `JUMP_FORCE` and the rise by [`MAX_RISE`] at every
/// frame boundary.
pub open spec fn entity_ok(e: EntityModel) -> bool {
    &&& e.y >= GROUND_LEVEL
    &&& e.vy * e.vy + 2 * (-GRAVITY) * (e.y - GROUND_LEVEL) <= JUMP_FORCE * JUMP_FORCE
    &&& 0 <= e.health <= START_HEALTH
    &&& e.base_width == PLAYER_WIDTH
    &&& e.base_height == PLAYER_HEIGHT
    &&& e.width == PLAYER_WIDTH
    &&& (e.height == e.base_height || 2 * e.height == e.base_height)
}

/// The entity of a fresh session: resting on the ground at full size and
/// full health.
pub open spec fn initial_entity() -> EntityModel {
    EntityModel {
        y: GROUND_LEVEL as int,
        vy: 0,
        width: PLAYER_WIDTH as int,
        height: PLAYER_HEIGHT as int,
        base_width: PLAYER_WIDTH as int,
        base_height: PLAYER_HEIGHT as int,
        health: START_HEALTH as int,
    }
}

/// What a frame's jump handling does: a buffered jump press is accepted if
/// and only if the entity is at or below ground level, and then sets the
/// vertical velocity to the fixed impulse.  A press while airborne has no
/// effect.
pub open spec fn jump_model(e: EntityModel, events: Seq<KeyEvent>) -> EntityModel {
    if has_jump_press(events) && e.y <= GROUND_LEVEL {
        EntityModel { vy: JUMP_FORCE as int, ..e }
    } else {
        e
    }
}

/// What one crouch event does to the current height: a press halves the
/// height relative to the base size (unless already at or below half), a
/// release restores the base height, and other keys change nothing.
pub open spec fn crouch_step(height: int, base_height: int, e: KeyEvent) -> int {
    if e.key is Crouch {
        if e.pressed {
            if height > base_height / 2 {
                base_height / 2
            } else {
                height
            }
        } else {
            base_height
        }
    } else {
        height
    }
}

/// The height after a frame's crouch events, applied in arrival order.
pub open spec fn crouch_height(height: int, base_height: int, events: Seq<KeyEvent>) -> int
    decreases events.len(),
{
    if events.len() == 0 {
        height
    } else {
        crouch_height(crouch_step(height, base_height, events[0]), base_height, events.skip(1))
    }
}

/// What a frame's crouch handling does to the entity.
pub open spec fn crouch_model(e: EntityModel, events: Seq<KeyEvent>) -> EntityModel {
    EntityModel { height: crouch_height(e.height, e.base_height, events), ..e }
}

/// What applying gravity for `dt` milliseconds does to the velocity.
pub open spec fn gravity_model(e: EntityModel, dt: int) -> EntityModel {
    EntityModel { vy: e.vy + GRAVITY * dt, ..e }
}

/// What integrating the position for `dt` milliseconds does: the position
/// advances by `vy * dt`, and a result at or below ground level is clamped
/// to the ground with the velocity zeroed.
pub open spec fn integrate_model(e: EntityModel, dt: int) -> EntityModel {
    let ny = e.y + e.vy * dt;
    if ny <= GROUND_LEVEL {
        EntityModel { y: GROUND_LEVEL as int, vy: 0, ..e }
    } else {
        EntityModel { y: ny, ..e }
    }
}

/// One whole frame of entity physics, in the order the tick runs it.
pub open spec fn physics_model(e: EntityModel, events: Seq<KeyEvent>, dt: int) -> EntityModel {
    integrate_model(gravity_model(crouch_model(jump_model(e, events), events), dt), dt)
}

impl Entity {
    /// Validity of this entity between frames; see [`entity_ok`].
    pub open spec fn wf(&self) -> bool {
        entity_ok(self@)
    }

    /// Accepts a buffered jump press: sets the vertical velocity to
    /// [`JUMP_FORCE`] if and only if some event in the batch presses the
    /// jump key while the entity sits at or below ground level.
    pub fn jump(&mut self, events: &Vec<KeyEvent>)
        ensures
            final(self)@ == jump_model(old(self)@, events@),
    {
        let pressed = contains_jump_press(events);
        if pressed && self.y <= GROUND_LEVEL {
            self.vy = JUMP_FORCE;
        }
    }

    /// Applies a frame's crouch events in order: a crouch press halves the
    /// bounding-box height relative to the base size, a crouch release
    /// restores it.  Only the collision box changes, never the physics.
    pub fn crouch(&mut self, events: &Vec<KeyEvent>)
        requires
            old(self).wf(),
        ensures
            final(self)@ == crouch_model(old(self)@, events@),
            final(self).wf(),
    {
        let ghost all = events@;
        proof {
            assert(all.skip(0) =~= all);
        }
        let mut i: usize = 0;
        while i < events.len()
            invariant
                0 <= i <= all.len(),
                events@ == all,
                self.y == old(self).y,
                self.vy == old(self).vy,
                self.width == old(self).width,
                self.base_width == old(self).base_width,
                self.base_height == old(self).base_height,
                self.health == old(self).health,
                old(self).wf(),
                self.height == self.base_height || 2 * self.height == self.base_height,
                crouch_height(self@.height, self@.base_height, all.skip(i as int))
                    == crouch_height(old(self)@.height, old(self)@.base_height, all),
            decreases all.len() - i,
        {
            let e = events[i];
            proof {
                assert(all.skip(i as int)[0] == all[i as int]);
                assert(all.skip(i as int).skip(1) =~= all.skip(i as int + 1));
            }
            if matches!(e.key, Key::Crouch) {
                if e.pressed {
                    let half = self.base_height / 2;
                    if self.height > half {
                        self.height = half;
                    }
                } else {
                    self.height = self.base_height;
                }
            }
            i += 1;
        }
        proof {
            assert(all.skip(all.len() as int) =~= Seq::<KeyEvent>::empty());
        }
    }

    /// Applies gravitational acceleration to the vertical velocity.
    pub fn apply_gravity(&mut self, dt: i64)
        requires
            0 <= dt <= MAX_DT,
            -MAX_FALL_SPEED <= old(self).vy <= MAX_FALL_SPEED,
        ensures
            final(self)@ == gravity_model(old(self)@, dt as int),
    {
        self.vy = self.vy + GRAVITY * dt;
    }

    /// Integrates the position and clamps it to the ground: after the call
    /// the entity never sits below ground level, and a frame whose unclamped
    /// result would be at or below the ground leaves it exactly on the
    /// ground with zero velocity.
    pub fn player_movement(&mut self, dt: i64)
        requires
            0 <= dt <= MAX_DT,
            GROUND_LEVEL <= old(self).y <= GROUND_LEVEL + MAX_RISE,
            -2 * MAX_FALL_SPEED <= old(self).vy <= 2 * MAX_FALL_SPEED,
        ensures
            final(self)@ == integrate_model(old(self)@, dt as int),
            final(self).y >= GROUND_LEVEL,
    {
        proof {
            assert(-800_002_000 * 100_000_000 <= self.vy * dt <= 800_002_000 * 100_000_000)
                by (nonlinear_arith)
                requires
                    -800_002_000 <= self.vy <= 800_002_000,
                    0 <= dt <= 100_000_000,
            ;
        }
        let ny = self.y + self.vy * dt;
        if ny <= GROUND_LEVEL {
            self.y = GROUND_LEVEL;
            self.vy = 0;
        } else {
            self.y = ny;
        }
    }
}

/// Ground clamp, over a whole frame of physics: from any valid entity state
/// and any frame delta up to [`MAX_DT`], the position never ends below
/// ground level, the entity stays valid, and a frame whose unclamped result
/// would be below the ground ends exactly on the ground with velocity zero.
pub proof fn lemma_ground_clamp(e: EntityModel, events: Seq<KeyEvent>, dt: int)
    requires
        entity_ok(e),
        0 <= dt <= MAX_DT,
    ensures
        physics_model(e, events, dt).y >= GROUND_LEVEL,
        entity_ok(physics_model(e, events, dt)),
        ({
            let before = gravity_model(crouch_model(jump_model(e, events), events), dt);
            before.y + before.vy * dt < GROUND_LEVEL ==> physics_model(e, events, dt).vy == 0
                && physics_model(e, events, dt).y == GROUND_LEVEL
        }),
{
    let e1 = jump_model(e, events);
    let e2 = crouch_model(e1, events);
    let e3 = gravity_model(e2, dt);
    let e4 = integrate_model(e3, dt);
    assert(e1.vy * e1.vy + 2 * (-GRAVITY) * (e1.y - GROUND_LEVEL) <= JUMP_FORCE * JUMP_FORCE);
    lemma_crouch_height_ok(e1.height, e1.base_height, events);
    if e3.y + e3.vy * dt <= GROUND_LEVEL {
        assert(e4.vy == 0 && e4.y == GROUND_LEVEL);
    } else {
        assert(e4.vy * e4.vy + 2 * (-GRAVITY) * (e4.y - GROUND_LEVEL)
            <= e1.vy * e1.vy + 2 * (-GRAVITY) * (e1.y - GROUND_LEVEL)) by (nonlinear_arith)
            requires
                dt >= 0,
                e4.vy == e1.vy + GRAVITY * dt,
                e4.y == e1.y + (e1.vy + GRAVITY * dt) * dt,
                GRAVITY == -4,
        ;
        assert(e4.vy * e4.vy >= 0) by (nonlinear_arith);
    }
}

/// A jump never invalidates the entity: it is accepted only on the ground,
/// where the impulse restores exactly the energy bound.
pub proof fn lemma_jump_preserves_ok(e: EntityModel, events: Seq<KeyEvent>)
    requires
        entity_ok(e),
    ensures
        entity_ok(jump_model(e, events)),
{
    let e1 = jump_model(e, events);
    if has_jump_press(events) && e.y <= GROUND_LEVEL {
        assert(e1.vy * e1.vy + 2 * (-GRAVITY) * (e1.y - GROUND_LEVEL) <= JUMP_FORCE * JUMP_FORCE)
            by (nonlinear_arith)
            requires
                e1.vy == JUMP_FORCE,
                e1.y == GROUND_LEVEL,
                GRAVITY == -4,
                JUMP_FORCE == 1000,
        ;
    }
}

/// The bounds the energy invariant puts on a valid entity: speed at most the
/// jump impulse, position between the ground and the peak of a jump.
pub proof fn lemma_ok_bounds(e: EntityModel)
    requires
        entity_ok(e),
    ensures
        -JUMP_FORCE <= e.vy <= JUMP_FORCE,
        GROUND_LEVEL <= e.y <= GROUND_LEVEL + MAX_RISE,
{
    assert(-JUMP_FORCE <= e.vy <= JUMP_FORCE && e.y <= GROUND_LEVEL + MAX_RISE)
        by (nonlinear_arith)
        requires
            e.vy * e.vy + 2 * (-GRAVITY) * (e.y - GROUND_LEVEL) <= JUMP_FORCE * JUMP_FORCE,
            e.y >= GROUND_LEVEL,
            GRAVITY == -4,
            JUMP_FORCE == 1000,
            GROUND_LEVEL == -100_000,
            MAX_RISE == 125_000,
    ;
}

/// The crouch fold keeps the height either at the base height or at half of
/// it, provided it starts that way.
pub proof fn lemma_crouch_height_ok(height: int, base_height: int, events: Seq<KeyEvent>)
    requires
        base_height == PLAYER_HEIGHT,
        height == base_height || 2 * height == base_height,
    ensures
        crouch_height(height, base_height, events) == base_height
            || 2 * crouch_height(height, base_height, events) == base_height,
    decreases events.len(),
{
    if events.len() > 0 {
        lemma_crouch_height_ok(crouch_step(height, base_height, events[0]), base_height,
            events.skip(1));
    }
}

/// A frame-by-frame run of the physics alone: each element of `frames` is
/// one frame's event batch and delta.
pub open spec fn physics_run(e: EntityModel, frames: Seq<(Seq<KeyEvent>, int)>) -> EntityModel
    decreases frames.len(),
{
    if frames.len() == 0 {
        e
    } else {
        physics_run(physics_model(e, frames[0].0, frames[0].1), frames.skip(1))
    }
}

/// Ground clamp over any sequence of frames: starting from a valid entity,
/// no run of physics frames (with deltas in range) can take the position
/// below ground level, at this or any intermediate frame boundary.
pub proof fn lemma_ground_clamp_run(e: EntityModel, frames: Seq<(Seq<KeyEvent>, int)>)
    requires
        entity_ok(e),
        forall|i: int| 0 <= i < frames.len() ==> 0 <= (#[trigger] frames[i]).1 <= MAX_DT,
    ensures
        entity_ok(physics_run(e, frames)),
        physics_run(e, frames).y >= GROUND_LEVEL,
    decreases frames.len(),
{
    if frames.len() > 0 {
        lemma_ground_clamp(e, frames[0].0, frames[0].1);
        lemma_ground_clamp_run(physics_model(e, frames[0].0, frames[0].1), frames.skip(1));
    }
}

} // verus!
