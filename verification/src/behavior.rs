//! The behavior that gets a fallen robot back on its feet.

use crate::types::{FallState, MotionCommand, WorldState};
use vstd::prelude::*;

verus! {

/// Asks the robot to stand up for as long as it lies or is getting up, from
/// the way it lies; asks for nothing while it is upright.
pub fn execute(world_state: &WorldState) -> (command: Option<MotionCommand>)
    ensures
        command == match world_state.robot.fall_state {
            FallState::Fallen { kind } => Some(MotionCommand::StandUp { kind }),
            FallState::StandingUp { kind } => Some(MotionCommand::StandUp { kind }),
            FallState::Upright => None,
        },
{
    match world_state.robot.fall_state {
        FallState::Fallen { kind } => Some(MotionCommand::StandUp { kind }),
        FallState::StandingUp { kind } => Some(MotionCommand::StandUp { kind }),
        FallState::Upright => None,
    }
}

} // verus!
