//! Verified core of a small side-scrolling avoidance game.
//!
//! A single controllable entity jumps over (or is struck by) obstacles that
//! scroll in from the right edge of the ground span.  Each collision costs one
//! point of health; when health reaches zero the session enters a terminal
//! state from which a restart input brings it back to a fresh run.
//!
//! The crate holds the per-frame simulation only: physics integration,
//! obstacle spawning and motion, axis-aligned collision detection, and the
//! two-state session lifecycle.  Rendering, window handling and input-device
//! polling are collaborators outside this crate; they read the world state and
//! hand already-decoded key events to [`world::World::tick`].
//!
//! All coordinates are integers in milli-units (one thousandth of a world
//! unit) and all durations are integer milliseconds, so every step of the
//! integration is exact; see [`consts`] for the conversion of each constant.

pub mod collision;
pub mod consts;
pub mod entity;
pub mod input;
pub mod obstacle;
pub mod rng;
pub mod world;

mod seq_util;
