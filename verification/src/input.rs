//! Decoded input events.
//!
//! The core never polls a device.  An outside input decoder turns raw device
//! events into discrete press/release notifications for the keys the game
//! cares about, and every event buffered since the previous frame is handed
//! to the tick that drains it.

use vstd::prelude::*;

verus! {

/// The keys the simulation reacts to.  The jump key doubles as the restart
/// key once the session is over; any other key is decoded as [`Key::Other`]
/// and ignored.
#[derive(Clone, Copy, Debug, PartialEq, Eq, Structural)]
pub enum Key {
    Jump,
    Crouch,
    Other,
}

/// One decoded keyboard notification: which key, and whether this is the
/// press edge (`pressed == true`) or the release edge.
#[derive(Clone, Copy, Debug, PartialEq, Eq, Structural)]
pub struct KeyEvent {
    pub key: Key,
    pub pressed: bool,
}

/// Whether a single event is a press of the jump key.
pub open spec fn is_jump_press(e: KeyEvent) -> bool {
    e.key is Jump && e.pressed
}

/// Whether the frame's event batch holds at least one jump-key press.
pub open spec fn has_jump_press(events: Seq<KeyEvent>) -> bool {
    exists|i: int| 0 <= i < events.len() && is_jump_press(events[i])
}

/// Scans a frame's event batch for a jump-key press.
pub fn contains_jump_press(events: &Vec<KeyEvent>) -> (found: bool)
    ensures
        found == has_jump_press(events@),
{
    let mut i: usize = 0;
    let mut found = false;
    while i < events.len()
        invariant
            0 <= i <= events@.len(),
            found <==> exists|j: int| 0 <= j < i && is_jump_press(events@[j]),
        decreases events@.len() - i,
    {
        if matches!(events[i].key, Key::Jump) && events[i].pressed {
            found = true;
        }
        i += 1;
    }
    found
}

} // verus!
