//! The motion that gets the robot up from lying on its front, driven once per
//! control cycle.

use crate::condition::Condition;
use crate::motion_file::MotionFile;
use crate::motion_interpolator::{MotionError, MotionInterpolator, MotionInterpolatorView};
use crate::timed_spline::Interpolate;
use crate::types::{CycleTime, MotionFinished, MotionSelection, MotionType};
use vstd::prelude::*;

verus! {

/// Plays the stand-up motion while it is selected, and holds it ready at its
/// start while it is not.
pub struct StandUpFront<T, C> {
    interpolator: MotionInterpolator<T, C>,
}

/// What it takes to create the motion.
pub struct CreationContext<T, C> {
    /// The authored stand-up motion.
    pub motion_file: MotionFile<T, C>,
}

/// What one control cycle hands to the motion.
pub struct CycleContext<'a, I> {
    pub condition_input: &'a I,
    pub cycle_time: CycleTime,
    pub motion_selection: MotionSelection,
    pub motion_finished: &'a mut MotionFinished,
}

/// What the motion hands back to the control cycle.
pub struct MainOutputs<T> {
    pub stand_up_front_positions: T,
}

impl<T, C> View for StandUpFront<T, C> {
    type V = MotionInterpolatorView<T, C>;

    closed spec fn view(&self) -> MotionInterpolatorView<T, C> {
        self.interpolator@
    }
}

impl<T, C: Condition> MotionInterpolatorView<T, C> {
    /// The machine after one control cycle of `time_step` nanoseconds with
    /// the sensors at `input`: moved on if its motion is selected, and back
    /// at the start if not.
    pub open spec fn cycled(self, selected: bool, time_step: u128, input: &C::Input) -> Self {
        if selected {
            self.advanced(time_step, input)
        } else {
            self.reset()
        }
    }
}

impl<T: Interpolate, C: Condition> MotionInterpolatorView<T, C> {
    /// A motion that is deselected and then selected again sets out anew,
    /// wherever it was: while it is not selected the commanded pose is the
    /// start of the first phase, and the first cycle in which it is selected
    /// again is the first cycle of a playback from the start, with the
    /// commanded pose still the start of the first phase.
    pub proof fn reselected_motion_restarts(
        self,
        idle: (u128, C::Input),
        resumed: (u128, C::Input),
    )
        requires
            self.wf(),
        ensures
            self.cycled(false, idle.0, &idle.1).value() == self.frames[0].spline.start,
            self.cycled(false, idle.0, &idle.1).cycled(true, resumed.0, &resumed.1)
                == self.reset().advanced(resumed.0, &resumed.1),
            self.cycled(false, idle.0, &idle.1).cycled(true, resumed.0, &resumed.1).value()
                == self.frames[0].spline.start,
    {
    }
}

impl<T: Interpolate, C: Condition> StandUpFront<T, C> {
    /// Builds the motion from its authored form, the cursor at the start.
    pub fn new(context: CreationContext<T, C>) -> (made: Result<Self, MotionError>)
        ensures
            match made {
                Ok(motion) => {
                    &&& motion@ == context.motion_file.playback()
                    &&& motion@.wf()
                },
                Err(MotionError::EmptyMotion) => context.motion_file.motion@.len() == 0,
                Err(MotionError::Spline { frame, error }) => {
                    &&& frame < context.motion_file.motion@.len()
                    &&& context.motion_file.phase_error(frame as int) == Some(error)
                    &&& forall|before: int|
                        0 <= before < frame ==> context.motion_file.phase_error(before) is None
                },
            },
    {
        match MotionInterpolator::try_from(context.motion_file) {
            Ok(interpolator) => Ok(StandUpFront { interpolator }),
            Err(error) => Err(error),
        }
    }

    /// Plays one control cycle of the selected motion: moves the cursor by the
    /// time that the last cycle took, raises the flag of this motion if
    /// playback has come to its end and lowers it if not, and gives the
    /// commanded pose.
    pub fn compute_stand_up_front(&mut self, context: CycleContext<C::Input>) -> (pose: T)
        ensures
            final(self)@ == old(self)@.advanced(
                context.cycle_time.last_cycle_duration,
                context.condition_input,
            ),
            final(self)@.wf(),
            *final(context.motion_finished) == old(context.motion_finished).with(
                MotionType::StandUpFront,
                final(self)@.is_finished(),
            ),
            pose == final(self)@.value(),
    {
        let last_cycle_duration = context.cycle_time.last_cycle_duration;
        context.motion_finished.set(MotionType::StandUpFront, false);
        self.interpolator.advance_by(last_cycle_duration, context.condition_input);
        if self.interpolator.is_finished() {
            context.motion_finished.set(MotionType::StandUpFront, true);
        }
        self.interpolator.value()
    }

    /// Runs one control cycle. The flag of this motion is lowered first. If
    /// this motion is the selected one, playback moves on by the time that
    /// the last cycle took, and the flag is raised if that brought playback
    /// to its end. If it is not, the cursor goes back to the start, so that
    /// a later selection plays the motion from its beginning. Either way the
    /// commanded pose is handed back.
    pub fn cycle(&mut self, context: CycleContext<C::Input>) -> (outputs: MainOutputs<T>)
        ensures
            final(self)@ == old(self)@.cycled(
                context.motion_selection.current_motion == MotionType::StandUpFront,
                context.cycle_time.last_cycle_duration,
                context.condition_input,
            ),
            final(self)@.wf(),
            *final(context.motion_finished) == old(context.motion_finished).with(
                MotionType::StandUpFront,
                context.motion_selection.current_motion == MotionType::StandUpFront
                    && final(self)@.is_finished(),
            ),
            outputs.stand_up_front_positions == final(self)@.value(),
    {
        context.motion_finished.set(MotionType::StandUpFront, false);
        let current_position = match context.motion_selection.current_motion {
            MotionType::StandUpFront => self.compute_stand_up_front(context),
            _ => {
                self.interpolator.reset();
                self.interpolator.value()
            },
        };
        MainOutputs { stand_up_front_positions: current_position }
    }
}

} // verus!
