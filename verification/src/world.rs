//! The world: one session's complete simulation state and its per-frame tick.
//!
//! A tick runs the systems in a fixed order against the single mutable world:
//! entity physics (jump, crouch, gravity, integration), obstacle motion and
//! reaping, collision resolution, the spawn timer, and the lifecycle check.
//! A spawned obstacle joins the world at the end of its tick, so it first
//! moves and collides on the following one.  While the session is over, only
//! the restart input is consulted.
//!
//! Spawn cadence policy: the timer accumulates the frame deltas and fires at
//! most once per frame, when the accumulator reaches the interval; on firing
//! it keeps the remainder modulo the interval, so a long frame cannot owe
//! more than one obstacle.

use vstd::prelude::*;

use crate::collision::damaged_health;
use crate::collision::detect_collision;
use crate::collision::hit_count;
use crate::collision::survivors;
use crate::consts::GROUND_LEVEL;
use crate::consts::MAX_DT;
use crate::consts::PLAYER_HEIGHT;
use crate::consts::PLAYER_WIDTH;
use crate::consts::SPAWN_INTERVAL;
use crate::consts::START_HEALTH;
use crate::entity::entity_ok;
use crate::entity::initial_entity;
use crate::entity::lemma_ground_clamp;
use crate::entity::lemma_jump_preserves_ok;
use crate::entity::lemma_ok_bounds;
use crate::entity::crouch_model;
use crate::entity::jump_model;
use crate::entity::physics_model;
use crate::entity::Entity;
use crate::entity::EntityModel;
use crate::input::contains_jump_press;
use crate::input::has_jump_press;
use crate::input::KeyEvent;
use crate::obstacle::move_obstacles;
use crate::obstacle::move_reap_model;
use crate::obstacle::obstacle_ok;
use crate::obstacle::place_obstacle;
use crate::obstacle::spawn_position;
use crate::obstacle::Obstacle;
use crate::obstacle::ObstacleModel;
use crate::rng::rng_from_seed;
use crate::rng::rng_next_u32;

verus! {

/// The two-value session lifecycle.  `Active` runs the gameplay systems;
/// `Over` freezes them and waits for the restart input.  The only
/// transitions are `Active -> Over` when health reaches zero and
/// `Over -> Active` on restart.
#[derive(Clone, Copy, Debug, PartialEq, Eq, Structural)]
pub enum GameState {
    Active,
    Over,
}

/// One session's complete simulation state.  The timer, entropy source and
/// lifecycle state are fields here rather than process-wide singletons, so a
/// session is deterministic and testable in isolation.
pub struct World {
    pub player: Entity,
    pub obstacles: Vec<Obstacle>,
    /// Elapsed milliseconds of the repeating spawn timer, always below
    /// [`SPAWN_INTERVAL`].
    pub spawn_timer: i64,
    pub state: GameState,
    /// The entropy source.  Its state is opaque to every contract; only the
    /// trusted wrappers in [`crate::rng`] touch it.
    pub rng: bevy_prng::WyRand,
}

/// The mathematical value of a [`World`].  The entropy source has no
/// mathematical value: a draw may be anything, and every contract over this
/// model holds for every draw.
#[verifier::ext_equal]
pub struct WorldModel {
    pub player: EntityModel,
    pub obstacles: Seq<ObstacleModel>,
    pub spawn_timer: int,
    pub state: GameState,
}

impl View for World {
    type V = WorldModel;

    open spec fn view(&self) -> WorldModel {
        WorldModel {
            player: self.player@,
            obstacles: self.obstacles.deep_view(),
            spawn_timer: self.spawn_timer as int,
            state: self.state,
        }
    }
}

/// Validity of a world between frames: a valid entity, a timer inside its
/// period, and every live obstacle on the ground span.
pub open spec fn world_ok(w: WorldModel) -> bool {
    &&& entity_ok(w.player)
    &&& 0 <= w.spawn_timer < SPAWN_INTERVAL
    &&& forall|i: int| 0 <= i < w.obstacles.len() ==> obstacle_ok(#[trigger] w.obstacles[i])
}

/// The world of a fresh session.
pub open spec fn initial_world() -> WorldModel {
    WorldModel {
        player: initial_entity(),
        obstacles: Seq::empty(),
        spawn_timer: 0,
        state: GameState::Active,
    }
}

/// Whether the spawn timer completes during a frame of `dt` milliseconds.
pub open spec fn timer_fires(elapsed: int, dt: int) -> bool {
    elapsed + dt >= SPAWN_INTERVAL
}

/// The timer's accumulator after a frame: on completion it keeps the
/// remainder modulo the interval, otherwise it just accumulates.
pub open spec fn timer_after(elapsed: int, dt: int) -> int {
    if timer_fires(elapsed, dt) {
        (elapsed + dt) % (SPAWN_INTERVAL as int)
    } else {
        elapsed + dt
    }
}

/// What the spawn step does to a world: ticks the timer and, exactly when it
/// fires, appends one obstacle placed from the random draw `r`.
pub open spec fn spawn_step_model(w: WorldModel, dt: int, r: u32) -> WorldModel {
    WorldModel {
        spawn_timer: timer_after(w.spawn_timer, dt),
        obstacles: if timer_fires(w.spawn_timer, dt) {
            w.obstacles.push(spawn_position(r))
        } else {
            w.obstacles
        },
        ..w
    }
}

/// What the lifecycle check does: the session ends exactly when health is
/// zero; otherwise nothing changes.
pub open spec fn lifecycle_model(w: WorldModel) -> WorldModel {
    if w.player.health == 0 {
        WorldModel { state: GameState::Over, ..w }
    } else {
        w
    }
}

/// What restart handling does: a jump-key press while the session is over
/// restores full health, clears all live obstacles and returns to `Active`
/// (which also clears the game-over banner, since the banner shows exactly
/// while the state is `Over`).  In every other case — no press, or a press
/// while the session is active — it is a no-op.
pub open spec fn restart_model(w: WorldModel, events: Seq<KeyEvent>) -> WorldModel {
    if w.state is Over && has_jump_press(events) {
        WorldModel {
            player: EntityModel { health: START_HEALTH as int, ..w.player },
            obstacles: Seq::empty(),
            state: GameState::Active,
            ..w
        }
    } else {
        w
    }
}

/// One active frame: physics, then obstacle motion and reaping, then
/// collision resolution, then the spawn step (whose obstacle joins at the
/// end of the frame), then the lifecycle check.
pub open spec fn active_frame_model(
    w: WorldModel,
    events: Seq<KeyEvent>,
    dt: int,
    r: u32,
) -> WorldModel {
    let p = physics_model(w.player, events, dt);
    let moved = move_reap_model(w.obstacles, dt);
    let health = damaged_health(p.health, hit_count(p, moved));
    let player = EntityModel { health, ..p };
    let obstacles = if timer_fires(w.spawn_timer, dt) {
        survivors(p, moved).push(spawn_position(r))
    } else {
        survivors(p, moved)
    };
    WorldModel {
        player,
        obstacles,
        spawn_timer: timer_after(w.spawn_timer, dt),
        state: if health == 0 {
            GameState::Over
        } else {
            GameState::Active
        },
    }
}

/// One whole tick: an active frame while the session runs, restart handling
/// once it is over.  `r` is the frame's random draw; it is ignored unless an
/// active frame's spawn timer fires.
pub open spec fn tick_model(w: WorldModel, events: Seq<KeyEvent>, dt: int, r: u32) -> WorldModel {
    if w.state is Active {
        active_frame_model(w, events, dt, r)
    } else {
        restart_model(w, events)
    }
}

/// The text shown by the health display; its content (never its layout) is
/// driven by the core.
pub open spec fn health_text(health: int) -> Seq<char> {
    if health == 0 {
        "Health: 0"@
    } else if health == 1 {
        "Health: 1"@
    } else if health == 2 {
        "Health: 2"@
    } else {
        "Health: 3"@
    }
}

impl World {
    /// Validity of this world between frames; see [`world_ok`].
    pub open spec fn wf(&self) -> bool {
        world_ok(self@)
    }

    /// Bootstraps a fresh session: the entity resting on the ground at full
    /// health, no obstacles, the spawn timer at zero, the session active,
    /// and the entropy source seeded with `seed` (a fixed seed reproduces an
    /// identical obstacle sequence).
    pub fn new(seed: u64) -> (w: World)
        ensures
            w@ == initial_world(),
            w.wf(),
    {
        let w = World {
            player: Entity {
                y: GROUND_LEVEL,
                vy: 0,
                width: PLAYER_WIDTH,
                height: PLAYER_HEIGHT,
                base_width: PLAYER_WIDTH,
                base_height: PLAYER_HEIGHT,
                health: START_HEALTH,
            },
            obstacles: Vec::new(),
            spawn_timer: 0,
            state: GameState::Active,
            rng: rng_from_seed(seed),
        };
        proof {
            assert(w@.obstacles =~= Seq::<ObstacleModel>::empty());
            assert(w@ =~= initial_world());
        }
        w
    }

    /// Ticks the spawn timer by the frame delta and, exactly when it
    /// completes, spawns one obstacle at the right edge of the ground span
    /// with a drawn vertical offset.  The draw is opaque, so the new world
    /// is pinned up to the drawn value.
    pub fn spawn_obstacles(&mut self, dt: i64)
        requires
            old(self).wf(),
            0 <= dt <= MAX_DT,
        ensures
            exists|r: u32| final(self)@ == spawn_step_model(old(self)@, dt as int, r),
            final(self).wf(),
    {
        self.spawn_timer = self.spawn_timer + dt;
        if self.spawn_timer >= SPAWN_INTERVAL {
            self.spawn_timer = self.spawn_timer % SPAWN_INTERVAL;
            let r = rng_next_u32(&mut self.rng);
            let ob = place_obstacle(r);
            let ghost prev = self.obstacles.deep_view();
            self.obstacles.push(ob);
            proof {
                assert(self.obstacles.deep_view() =~= prev.push(ob@));
                assert(self@ =~= spawn_step_model(old(self)@, dt as int, r));
            }
        } else {
            proof {
                assert(self@ =~= spawn_step_model(old(self)@, dt as int, 0u32));
            }
        }
    }

    /// The once-per-frame lifecycle check: transitions to `Over` exactly
    /// when health has reached zero.
    pub fn check_health(&mut self)
        ensures
            final(self)@ == lifecycle_model(old(self)@),
            old(self).wf() ==> final(self).wf(),
    {
        if self.player.health == 0 {
            self.state = GameState::Over;
        }
        proof {
            assert(self@ =~= lifecycle_model(old(self)@));
        }
    }

    /// Whether the terminal banner is shown: the core's whole presentation
    /// responsibility is this flag, which holds exactly while the session is
    /// over.
    pub fn game_over_banner(&self) -> (shown: bool)
        ensures
            shown == (self@.state is Over),
    {
        matches!(self.state, GameState::Over)
    }

    /// The current content of the health display.
    pub fn render_health_info(&self) -> (text: &'static str)
        ensures
            text@ == health_text(self@.player.health),
    {
        match self.player.health {
            0 => "Health: 0",
            1 => "Health: 1",
            2 => "Health: 2",
            _ => "Health: 3",
        }
    }

    /// Handles restart input: a jump-key press while the session is over
    /// restores full health, clears all obstacles and the banner, and
    /// returns the session to `Active`.  Pressing while active, or not
    /// pressing, changes nothing.
    pub fn restart_game(&mut self, events: &Vec<KeyEvent>)
        requires
            old(self).wf(),
        ensures
            final(self)@ == restart_model(old(self)@, events@),
            final(self).wf(),
    {
        if matches!(self.state, GameState::Over) {
            let pressed = contains_jump_press(events);
            if pressed {
                self.player.health = START_HEALTH;
                self.obstacles = Vec::new();
                self.state = GameState::Active;
                proof {
                    assert(self@.obstacles =~= Seq::<ObstacleModel>::empty());
                }
            }
        }
        proof {
            assert(self@ =~= restart_model(old(self)@, events@));
        }
    }

    /// One frame of the whole simulation, in the fixed system order.  The
    /// result is pinned down up to the frame's single random draw, and is
    /// independent of the draw whenever the spawn timer does not fire — in
    /// particular on every frame of a finished session.
    pub fn tick(&mut self, events: &Vec<KeyEvent>, dt: i64)
        requires
            old(self).wf(),
            0 <= dt <= MAX_DT,
        ensures
            final(self).wf(),
            exists|r: u32| final(self)@ == tick_model(old(self)@, events@, dt as int, r),
            old(self)@.state is Over || !timer_fires(old(self)@.spawn_timer, dt as int)
                ==> final(self)@ == tick_model(old(self)@, events@, dt as int, 0u32),
    {
        let ghost w0 = old(self)@;
        if matches!(self.state, GameState::Active) {
            self.player.jump(events);
            proof {
                lemma_jump_preserves_ok(w0.player, events@);
                assert(self.player.wf());
            }
            self.player.crouch(events);
            proof {
                assert(self.player@ == crouch_model(jump_model(w0.player, events@), events@));
                lemma_ok_bounds(self.player@);
            }
            self.player.apply_gravity(dt);
            self.player.player_movement(dt);
            proof {
                lemma_ground_clamp(w0.player, events@, dt as int);
                assert(self.player@ == physics_model(w0.player, events@, dt as int));
            }
            move_obstacles(&mut self.obstacles, dt);
            detect_collision(&mut self.player, &mut self.obstacles);
            let ghost w_pre_spawn = self@;
            self.spawn_obstacles(dt);
            let ghost r_draw = choose|r: u32|
                self@ == spawn_step_model(w_pre_spawn, dt as int, r);
            self.check_health();
            proof {
                assert(self@ =~= active_frame_model(w0, events@, dt as int, r_draw));
                assert(self@ == tick_model(w0, events@, dt as int, r_draw));
                if !timer_fires(w0.spawn_timer, dt as int) {
                    assert(self@ =~= active_frame_model(w0, events@, dt as int, 0u32));
                }
            }
        } else {
            self.restart_game(events);
            proof {
                assert(self@ == tick_model(w0, events@, dt as int, 0u32));
            }
        }
    }
}

/// Lifecycle punctuality: an active tick ends in `Over` exactly when it
/// leaves health at zero, so the transition never lags the fatal frame.
pub proof fn lemma_lifecycle_transition(w: WorldModel, events: Seq<KeyEvent>, dt: int, r: u32)
    requires
        w.state is Active,
    ensures
        ({
            let w1 = tick_model(w, events, dt, r);
            w1.state is Over <==> w1.player.health == 0
        }),
{
}

/// Restart ignores input while the session is active.
pub proof fn lemma_restart_ignored_while_active(w: WorldModel, events: Seq<KeyEvent>)
    requires
        w.state is Active,
    ensures
        restart_model(w, events) == w,
{
}

/// Idempotence of reset: a restart press while the session is over restores
/// full health, an empty obstacle set and the active state — and because the
/// state is then active, a second press arriving right after the transition
/// changes nothing: no double reset, no re-clearing, no health above the
/// starting value.
pub proof fn lemma_restart_idempotent(
    w: WorldModel,
    first: Seq<KeyEvent>,
    second: Seq<KeyEvent>,
)
    requires
        w.state is Over,
        has_jump_press(first),
    ensures
        ({
            let w1 = restart_model(w, first);
            &&& w1.state is Active
            &&& w1.player.health == START_HEALTH
            &&& w1.obstacles.len() == 0
            &&& restart_model(w1, second) == w1
        }),
{
}

} // verus!
