//! What the control cycle hands to the behavior and to the motions, and what
//! it takes back from them.

use vstd::prelude::*;

verus! {

/// How the robot lies after a fall.
#[derive(Clone, Copy, Debug, PartialEq, Eq, Structural)]
pub enum Kind {
    /// On its front.
    FacingDown,
    /// On its back.
    FacingUp,
    Sitting,
}

/// Whether the robot stands, lies, or is getting up.
#[derive(Clone, Copy, Debug, PartialEq, Eq, Structural)]
pub enum FallState {
    Upright,
    Fallen { kind: Kind },
    StandingUp { kind: Kind },
}

#[derive(Clone, Copy, Debug, PartialEq, Eq, Structural)]
pub struct RobotState {
    pub fall_state: FallState,
}

#[derive(Clone, Copy, Debug, PartialEq, Eq, Structural)]
pub struct WorldState {
    pub robot: RobotState,
}

/// What the behavior wants the robot to do.
#[derive(Clone, Copy, Debug, PartialEq, Eq, Structural)]
pub enum MotionCommand {
    /// Get up from lying as `kind` says.
    StandUp { kind: Kind },
}

/// The motions that can be selected.
#[derive(Clone, Copy, Debug, PartialEq, Eq, Structural)]
pub enum MotionType {
    Stand,
    StandUpBack,
    StandUpFront,
}

/// The motion that is selected in this cycle.
#[derive(Clone, Copy, Debug, PartialEq, Eq, Structural)]
pub struct MotionSelection {
    pub current_motion: MotionType,
}

#[derive(Clone, Copy, Debug, PartialEq, Eq, Structural)]
pub struct CycleTime {
    /// Nanoseconds that the last control cycle took.
    pub last_cycle_duration: u128,
}

/// One flag per motion: the motion has come to its end in this cycle.
#[derive(Clone, Copy, Debug, PartialEq, Eq, Structural)]
pub struct MotionFinished {
    pub stand: bool,
    pub stand_up_back: bool,
    pub stand_up_front: bool,
}

impl MotionFinished {
    /// The flag of `motion`.
    pub open spec fn flag(self, motion: MotionType) -> bool {
        match motion {
            MotionType::Stand => self.stand,
            MotionType::StandUpBack => self.stand_up_back,
            MotionType::StandUpFront => self.stand_up_front,
        }
    }

    /// The same flags, but for that of `motion`, which is `finished`.
    pub open spec fn with(self, motion: MotionType, finished: bool) -> MotionFinished {
        match motion {
            MotionType::Stand => MotionFinished { stand: finished, ..self },
            MotionType::StandUpBack => MotionFinished { stand_up_back: finished, ..self },
            MotionType::StandUpFront => MotionFinished { stand_up_front: finished, ..self },
        }
    }

    pub fn get(&self, motion: MotionType) -> (finished: bool)
        ensures
            finished == self.flag(motion),
    {
        match motion {
            MotionType::Stand => self.stand,
            MotionType::StandUpBack => self.stand_up_back,
            MotionType::StandUpFront => self.stand_up_front,
        }
    }

    pub fn set(&mut self, motion: MotionType, finished: bool)
        ensures
            *final(self) == old(self).with(motion, finished),
    {
        match motion {
            MotionType::Stand => {
                self.stand = finished;
            },
            MotionType::StandUpBack => {
                self.stand_up_back = finished;
            },
            MotionType::StandUpFront => {
                self.stand_up_front = finished;
            },
        }
    }
}

} // verus!
