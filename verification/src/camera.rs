//! The camera controller's decision layer.
//!
//! Each tick, six directional inputs decide how the eye is displaced:
//! forward and back along the view direction, left and right along a side
//! axis, up and down along the up axis. Which of the six are active is
//! pure input logic and is decided here; the embedder applies the actual
//! displacements, each one independent and additive within the tick,
//! scaled by the configured speed and the frame delta.

use crate::input_manager::InputManager;
use crate::input_manager::KeyCode;
use vstd::prelude::*;

verus! {

/// Which of the six camera movements are active this tick.
#[derive(Clone, Copy, Debug, PartialEq, Eq, Structural)]
pub struct MovementIntent {
    /// Displace along the view direction.
    pub forward: bool,
    /// Displace against the view direction.
    pub backward: bool,
    /// Displace along the side axis.
    pub left: bool,
    /// Displace against the side axis.
    pub right: bool,
    /// Displace along the up axis.
    pub up: bool,
    /// Displace against the up axis.
    pub down: bool,
}

/// The movements the held keys ask for: W and S along the view direction,
/// A and D along the side axis, Space and left shift along the up axis.
/// Keys combine freely; each movement is reported independently.
pub fn movement_intent(input: &InputManager) -> (m: MovementIntent)
    ensures
        m == (MovementIntent {
            forward: input@.key_is_pressed(KeyCode::W),
            backward: input@.key_is_pressed(KeyCode::S),
            left: input@.key_is_pressed(KeyCode::A),
            right: input@.key_is_pressed(KeyCode::D),
            up: input@.key_is_pressed(KeyCode::Space),
            down: input@.key_is_pressed(KeyCode::LShift),
        }),
{
    MovementIntent {
        forward: input.is_key_pressed(KeyCode::W),
        backward: input.is_key_pressed(KeyCode::S),
        left: input.is_key_pressed(KeyCode::A),
        right: input.is_key_pressed(KeyCode::D),
        up: input.is_key_pressed(KeyCode::Space),
        down: input.is_key_pressed(KeyCode::LShift),
    }
}

} // verus!
