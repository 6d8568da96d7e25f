//! A motion as it is authored: a start pose and a list of frames, each with
//! the keyframes of one phase and the conditions that gate it.

use crate::motion_interpolator::{
    follows_on, ConditionedSplineView, MotionInterpolatorView, State,
};
use crate::timed_spline::{
    curve_error, InterpolationMode, InterpolatorError, KeyFrame, TimedSplineView,
};
use vstd::prelude::*;

verus! {

/// One phase of an authored motion.
#[derive(Debug)]
pub struct MotionFileFrame<T, C> {
    pub entry_condition: Option<C>,
    /// The poses of the phase, each with the time since the start of the
    /// phase at which it is to be reached.
    pub keyframes: Vec<KeyFrame<T>>,
    pub exit_condition: Option<C>,
}

/// An authored motion.
#[derive(Debug)]
pub struct MotionFile<T, C> {
    /// The pose from which the first phase starts.
    pub initial_positions: T,
    pub interpolation_mode: InterpolationMode,
    pub motion: Vec<MotionFileFrame<T, C>>,
}

impl<T, C> MotionFile<T, C> {
    /// The pose from which phase `index` starts: the initial pose for the
    /// first phase, and for every other the last keyframe of the phase
    /// before it.
    pub open spec fn phase_start(self, index: int) -> T {
        if index <= 0 {
            self.initial_positions
        } else {
            self.motion@[index - 1].keyframes@.last().positions
        }
    }

    /// Why the curve of phase `index` cannot be built, if it cannot.
    pub open spec fn phase_error(self, index: int) -> Option<InterpolatorError> {
        curve_error(self.motion@[index].keyframes@)
    }

    /// The phase that frame `index` describes.
    pub open spec fn phase(self, index: int) -> ConditionedSplineView<T, C> {
        ConditionedSplineView {
            entry_condition: self.motion@[index].entry_condition,
            spline: TimedSplineView {
                start: self.phase_start(index),
                keyframes: self.motion@[index].keyframes@,
                mode: self.interpolation_mode,
            },
            exit_condition: self.motion@[index].exit_condition,
        }
    }

    /// The machine that plays this motion, before anything was played.
    pub open spec fn playback(self) -> MotionInterpolatorView<T, C> {
        MotionInterpolatorView {
            frames: Seq::new(self.motion@.len(), |index: int| self.phase(index)),
            state: State::start(),
        }
    }

    /// A motion with at least one frame, and a curve through the keyframes
    /// of each, can be played.
    pub proof fn playback_is_wf(self)
        requires
            1 <= self.motion@.len() <= usize::MAX,
            forall|index: int|
                0 <= index < self.motion@.len() ==> self.phase_error(index) is None,
        ensures
            self.playback().wf(),
    {
        let phases = self.playback().frames;
        assert forall|index: int| 0 <= index < phases.len() implies (
        #[trigger] phases[index]).spline.wf() by {
            assert(self.phase_error(index) is None);
        }
        assert forall|index: int| 0 < index < phases.len() implies #[trigger] follows_on(
            phases,
            index,
        ) by {
            assert(self.phase_error(index - 1) is None);
        }
    }
}

} // verus!
