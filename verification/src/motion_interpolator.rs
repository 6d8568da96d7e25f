//! The playback machine: an ordered list of phases and one cursor that moves
//! through them, one transition per control cycle.

use crate::condition::{Condition, Response};
use crate::motion_file::{MotionFile, MotionFileFrame};
use crate::timed_spline::{Interpolate, InterpolatorError, TimedSpline, TimedSplineView};
use vstd::prelude::*;

verus! {

/// One phase of a motion: a curve, and the conditions that gate the way into
/// it and out of it.
#[derive(Debug)]
pub struct ConditionedSpline<T, C> {
    pub entry_condition: Option<C>,
    pub spline: TimedSpline<T>,
    pub exit_condition: Option<C>,
}

/// What a phase is.
pub struct ConditionedSplineView<T, C> {
    pub entry_condition: Option<C>,
    pub spline: TimedSplineView<T>,
    pub exit_condition: Option<C>,
}

impl<T, C> View for ConditionedSpline<T, C> {
    type V = ConditionedSplineView<T, C>;

    open spec fn view(&self) -> ConditionedSplineView<T, C> {
        ConditionedSplineView {
            entry_condition: self.entry_condition,
            spline: self.spline@,
            exit_condition: self.exit_condition,
        }
    }
}

/// Phase `index` starts where the phase before it ends.
pub open spec fn follows_on<T, C>(phases: Seq<ConditionedSplineView<T, C>>, index: int) -> bool {
    phases[index].spline.start == phases[index - 1].spline.end()
}

/// The phases make up a motion: there is one, every curve is well formed, and
/// every phase but the first starts where the one before it ends.
pub open spec fn playable<T, C>(phases: Seq<ConditionedSplineView<T, C>>) -> bool {
    &&& 1 <= phases.len() <= usize::MAX
    &&& forall|index: int| 0 <= index < phases.len() ==> (#[trigger] phases[index]).spline.wf()
    &&& forall|index: int| 0 < index < phases.len() ==> #[trigger] follows_on(phases, index)
}

/// The same phases with the first one starting from `position`.
pub open spec fn with_first_start<T, C>(
    phases: Seq<ConditionedSplineView<T, C>>,
    position: T,
) -> Seq<ConditionedSplineView<T, C>> {
    phases.update(
        0,
        ConditionedSplineView { spline: phases[0].spline.with_start(position), ..phases[0] },
    )
}

/// What the phases in `frames` are.
pub open spec fn phases_of<T, C>(frames: Seq<ConditionedSpline<T, C>>) -> Seq<
    ConditionedSplineView<T, C>,
> {
    Seq::new(frames.len(), |index: int| frames[index]@)
}

/// The side of a phase on which playback was aborted.
#[derive(Clone, Copy, Debug, PartialEq, Eq, Structural)]
pub enum Side {
    Entry,
    Exit,
}

/// The playback cursor. Times are nanoseconds spent in the current state.
#[derive(Clone, Copy, Debug, PartialEq, Eq, Structural)]
pub enum State {
    /// Waiting to be let into a phase.
    CheckEntry { current_frame_index: usize, time_since_start: u128 },
    /// Following the curve of a phase.
    InterpolateSpline { current_frame_index: usize, time_since_start: u128 },
    /// Waiting to be let out of a phase.
    CheckExit { current_frame_index: usize, time_since_start: u128 },
    /// All phases were played.
    Finished,
    /// A condition of the phase `from_frame_index` demanded to stop.
    Aborted { frame_side: Side, from_frame_index: usize },
}

impl State {
    /// The cursor before anything was played.
    pub open spec fn start() -> State {
        State::CheckEntry { current_frame_index: 0, time_since_start: 0 }
    }

    /// Playback has come to its end, one way or the other.
    pub open spec fn is_terminal(self) -> bool {
        self is Finished || self is Aborted
    }

    /// The cursor points into a motion of `frames` phases.
    pub open spec fn within(self, frames: nat) -> bool {
        match self {
            State::CheckEntry { current_frame_index, .. } => current_frame_index < frames,
            State::InterpolateSpline { current_frame_index, .. } => current_frame_index < frames,
            State::CheckExit { current_frame_index, .. } => current_frame_index < frames,
            State::Finished => true,
            State::Aborted { from_frame_index, .. } => from_frame_index < frames,
        }
    }
}

impl Default for State {
    fn default() -> (state: State)
        ensures
            state == State::start(),
    {
        State::CheckEntry { current_frame_index: 0, time_since_start: 0 }
    }
}

/// What a playback machine is: its phases and its cursor.
pub struct MotionInterpolatorView<T, C> {
    pub frames: Seq<ConditionedSplineView<T, C>>,
    pub state: State,
}

impl<T, C> MotionInterpolatorView<T, C> {
    /// The phases make up a motion, and the cursor points at one of them.
    pub open spec fn wf(self) -> bool {
        &&& playable(self.frames)
        &&& self.state.within(self.frames.len())
    }

    pub open spec fn is_finished(self) -> bool {
        self.state.is_terminal()
    }

    /// The same phases with the cursor back at the start.
    pub open spec fn reset(self) -> Self {
        MotionInterpolatorView { state: State::start(), ..self }
    }

    /// The same machine with the first phase starting from `position`.
    pub open spec fn with_initial_positions(self, position: T) -> Self {
        MotionInterpolatorView { frames: with_first_start(self.frames, position), ..self }
    }

    /// The machine after one control cycle of `time_step` nanoseconds in
    /// which the condition that the cursor waits on, if there is one,
    /// answered `response`. The cursor makes one transition:
    ///
    /// - waiting to enter a phase, it stops on `Abort`, goes on waiting on
    ///   `Wait`, and else sets out on the curve of the phase;
    /// - on a curve, it moves on by the time step, and waits to leave the
    ///   phase once that reaches the end of the curve;
    /// - waiting to leave a phase, it stops on `Abort`, goes on waiting on
    ///   `Wait`, and else waits to enter the next phase, or is finished if
    ///   there is none;
    /// - finished or aborted, it stays as it is.
    ///
    /// The time spent waiting saturates.
    pub open spec fn stepped(self, time_step: u128, response: Option<Response>) -> Self {
        let state = match self.state {
            State::CheckEntry { current_frame_index, time_since_start } => match response {
                Some(Response::Abort) => State::Aborted {
                    frame_side: Side::Entry,
                    from_frame_index: current_frame_index,
                },
                Some(Response::Wait) => State::CheckEntry {
                    current_frame_index,
                    time_since_start: time_since_start.saturating_add(time_step),
                },
                _ => State::InterpolateSpline { current_frame_index, time_since_start: 0 },
            },
            State::InterpolateSpline { current_frame_index, time_since_start } => {
                if time_since_start + time_step
                    < self.frames[current_frame_index as int].spline.total_duration() {
                    State::InterpolateSpline {
                        current_frame_index,
                        time_since_start: (time_since_start + time_step) as u128,
                    }
                } else {
                    State::CheckExit { current_frame_index, time_since_start: 0 }
                }
            },
            State::CheckExit { current_frame_index, time_since_start } => match response {
                Some(Response::Abort) => State::Aborted {
                    frame_side: Side::Exit,
                    from_frame_index: current_frame_index,
                },
                Some(Response::Wait) => State::CheckExit {
                    current_frame_index,
                    time_since_start: time_since_start.saturating_add(time_step),
                },
                _ => if current_frame_index + 1 < self.frames.len() {
                    State::CheckEntry {
                        current_frame_index: (current_frame_index + 1) as usize,
                        time_since_start: 0,
                    }
                } else {
                    State::Finished
                },
            },
            State::Finished => State::Finished,
            State::Aborted { frame_side, from_frame_index } => State::Aborted {
                frame_side,
                from_frame_index,
            },
        };
        MotionInterpolatorView { state, ..self }
    }
}

impl<T, C: Condition> MotionInterpolatorView<T, C> {
    /// What the condition that the cursor waits on answers to `input`, if
    /// the cursor waits on one.
    pub open spec fn response(self, input: &C::Input) -> Option<Response> {
        match self.state {
            State::CheckEntry { current_frame_index, time_since_start } => {
                match self.frames[current_frame_index as int].entry_condition {
                    Some(condition) => Some(condition.response(input, time_since_start as nat)),
                    None => None,
                }
            },
            State::CheckExit { current_frame_index, time_since_start } => {
                match self.frames[current_frame_index as int].exit_condition {
                    Some(condition) => Some(condition.response(input, time_since_start as nat)),
                    None => None,
                }
            },
            _ => None,
        }
    }

    /// The machine after one control cycle of `time_step` nanoseconds with
    /// the sensors at `input`.
    pub open spec fn advanced(self, time_step: u128, input: &C::Input) -> Self {
        self.stepped(time_step, self.response(input))
    }
}

impl<T: Interpolate, C> MotionInterpolatorView<T, C> {
    /// The commanded pose: on the curve while a phase is played, at the start
    /// of the phase while waiting to enter it or after an abort on entry, at
    /// its end while waiting to leave it or after an abort on exit, and at
    /// the end of the last phase when all were played.
    pub open spec fn value(self) -> T {
        match self.state {
            State::CheckEntry { current_frame_index, .. } => {
                self.frames[current_frame_index as int].spline.start
            },
            State::InterpolateSpline { current_frame_index, time_since_start } => {
                self.frames[current_frame_index as int].spline.value_at(time_since_start as nat)
            },
            State::CheckExit { current_frame_index, .. } => {
                self.frames[current_frame_index as int].spline.end()
            },
            State::Finished => self.frames.last().spline.end(),
            State::Aborted { frame_side: Side::Entry, from_frame_index } => {
                self.frames[from_frame_index as int].spline.start
            },
            State::Aborted { frame_side: Side::Exit, from_frame_index } => {
                self.frames[from_frame_index as int].spline.end()
            },
        }
    }
}

/// Moves the start of the first curve in `frames` to `position`.
fn move_first_start<T: Interpolate, C>(frames: &mut Vec<ConditionedSpline<T, C>>, position: T)
    requires
        playable(phases_of(old(frames)@)),
    ensures
        phases_of(final(frames)@) == with_first_start(phases_of(old(frames)@), position),
        playable(phases_of(final(frames)@)),
    no_unwind
{
    let ghost before = phases_of(frames@);
    frames[0].spline.set_initial_positions(position);
    proof {
        let after = phases_of(frames@);
        assert(after =~= with_first_start(before, position));
        assert forall|index: int| 0 < index < after.len() implies #[trigger] follows_on(
            after,
            index,
        ) by {
            assert(follows_on(before, index));
        }
    }
}

/// Plays a motion: holds its phases and the cursor.
#[derive(Debug)]
pub struct MotionInterpolator<T, C> {
    frames: Vec<ConditionedSpline<T, C>>,
    current_state: State,
}

impl<T, C> View for MotionInterpolator<T, C> {
    type V = MotionInterpolatorView<T, C>;

    closed spec fn view(&self) -> MotionInterpolatorView<T, C> {
        MotionInterpolatorView { frames: phases_of(self.frames@), state: self.current_state }
    }
}

impl<T, C> MotionInterpolator<T, C> {
    #[verifier::type_invariant]
    closed spec fn inv(self) -> bool {
        self@.wf()
    }
}

impl<T: Interpolate, C: Condition> MotionInterpolator<T, C> {
    /// Moves the cursor by one control cycle of `time_step` nanoseconds,
    /// given what the condition that the cursor waits on answered.
    pub fn advance_with(&mut self, time_step: u128, response: Option<Response>)
        ensures
            final(self)@ == old(self)@.stepped(time_step, response),
            final(self)@.wf(),
    {
        proof {
            use_type_invariant(&*self);
        }
        let next = match self.current_state {
            State::CheckEntry { current_frame_index, time_since_start } => match response {
                Some(Response::Abort) => State::Aborted {
                    frame_side: Side::Entry,
                    from_frame_index: current_frame_index,
                },
                Some(Response::Wait) => State::CheckEntry {
                    current_frame_index,
                    time_since_start: time_since_start.saturating_add(time_step),
                },
                _ => State::InterpolateSpline { current_frame_index, time_since_start: 0 },
            },
            State::InterpolateSpline { current_frame_index, time_since_start } => {
                let total_duration = self.frames[current_frame_index].spline.total_duration();
                match time_since_start.checked_add(time_step) {
                    Some(elapsed) if elapsed < total_duration => State::InterpolateSpline {
                        current_frame_index,
                        time_since_start: elapsed,
                    },
                    _ => State::CheckExit { current_frame_index, time_since_start: 0 },
                }
            },
            State::CheckExit { current_frame_index, time_since_start } => match response {
                Some(Response::Abort) => State::Aborted {
                    frame_side: Side::Exit,
                    from_frame_index: current_frame_index,
                },
                Some(Response::Wait) => State::CheckExit {
                    current_frame_index,
                    time_since_start: time_since_start.saturating_add(time_step),
                },
                _ => if current_frame_index < self.frames.len() - 1 {
                    State::CheckEntry {
                        current_frame_index: current_frame_index + 1,
                        time_since_start: 0,
                    }
                } else {
                    State::Finished
                },
            },
            State::Finished => State::Finished,
            State::Aborted { frame_side, from_frame_index } => State::Aborted {
                frame_side,
                from_frame_index,
            },
        };
        self.current_state = next;
    }

    /// Moves the cursor by one control cycle of `time_step` nanoseconds: asks
    /// the condition that the cursor waits on, if there is one, about
    /// `condition_input`, and makes the one transition that follows from its
    /// answer.
    pub fn advance_by(&mut self, time_step: u128, condition_input: &C::Input)
        ensures
            final(self)@ == old(self)@.advanced(time_step, condition_input),
            final(self)@.wf(),
    {
        proof {
            use_type_invariant(&*self);
        }
        let response = match self.current_state {
            State::CheckEntry { current_frame_index, time_since_start } => {
                match &self.frames[current_frame_index].entry_condition {
                    Some(condition) => Some(condition.evaluate(condition_input, time_since_start)),
                    None => None,
                }
            },
            State::CheckExit { current_frame_index, time_since_start } => {
                match &self.frames[current_frame_index].exit_condition {
                    Some(condition) => Some(condition.evaluate(condition_input, time_since_start)),
                    None => None,
                }
            },
            _ => None,
        };
        self.advance_with(time_step, response);
    }

    /// Playback has come to its end: all phases were played, or a condition
    /// demanded to stop.
    pub fn is_finished(&self) -> (finished: bool)
        ensures
            finished == self@.is_finished(),
            self@.wf(),
    {
        proof {
            use_type_invariant(self);
        }
        match self.current_state {
            State::Finished => true,
            State::Aborted { .. } => true,
            _ => false,
        }
    }

    /// The commanded pose.
    pub fn value(&self) -> (pose: T)
        ensures
            pose == self@.value(),
            self@.wf(),
    {
        proof {
            use_type_invariant(self);
        }
        match self.current_state {
            State::CheckEntry { current_frame_index, .. } => {
                self.frames[current_frame_index].spline.start_position()
            },
            State::InterpolateSpline { current_frame_index, time_since_start } => {
                self.frames[current_frame_index].spline.value_at(time_since_start)
            },
            State::CheckExit { current_frame_index, .. } => {
                self.frames[current_frame_index].spline.end_position()
            },
            State::Finished => self.frames[self.frames.len() - 1].spline.end_position(),
            State::Aborted { frame_side: Side::Entry, from_frame_index } => {
                self.frames[from_frame_index].spline.start_position()
            },
            State::Aborted { frame_side: Side::Exit, from_frame_index } => {
                self.frames[from_frame_index].spline.end_position()
            },
        }
    }

    /// Puts the cursor back at the start, whatever it was.
    pub fn reset(&mut self)
        ensures
            final(self)@ == old(self)@.reset(),
            final(self)@.wf(),
    {
        proof {
            use_type_invariant(&*self);
        }
        self.current_state = State::CheckEntry { current_frame_index: 0, time_since_start: 0 };
    }

    /// Moves the start of the first phase to `position`, so that playback
    /// sets out from the pose that the robot is in. To be called only while
    /// the cursor waits to enter the first phase.
    pub fn set_initial_positions(&mut self, position: T)
        requires
            old(self)@.state matches State::CheckEntry { current_frame_index: 0, .. },
        ensures
            final(self)@ == old(self)@.with_initial_positions(position),
            final(self)@.wf(),
    {
        proof {
            use_type_invariant(&*self);
        }
        move_first_start(&mut self.frames, position);
    }

    /// The cursor.
    pub fn state(&self) -> (state: State)
        ensures
            state == self@.state,
            self@.wf(),
    {
        proof {
            use_type_invariant(self);
        }
        self.current_state
    }
}

/// Why a motion cannot be played.
#[derive(Clone, Copy, Debug, PartialEq, Eq, Structural)]
pub enum MotionError {
    /// The motion has no phase.
    EmptyMotion,
    /// The curve of the phase `frame` cannot be built.
    Spline { frame: usize, error: InterpolatorError },
}

impl<T: Interpolate, C: Condition> MotionInterpolator<T, C> {
    /// Builds the machine that plays `motion_file`: one phase per frame, the
    /// first starting from the initial pose and every other from the last
    /// keyframe of the frame before it. Fails if there is no frame, and at the
    /// first frame whose curve cannot be built.
    pub fn try_from(motion_file: MotionFile<T, C>) -> (made: Result<Self, MotionError>)
        ensures
            match made {
                Ok(interpolator) => {
                    &&& interpolator@ == motion_file.playback()
                    &&& interpolator@.wf()
                },
                Err(MotionError::EmptyMotion) => motion_file.motion@.len() == 0,
                Err(MotionError::Spline { frame, error }) => {
                    &&& frame < motion_file.motion@.len()
                    &&& motion_file.phase_error(frame as int) == Some(error)
                    &&& forall|before: int|
                        0 <= before < frame ==> motion_file.phase_error(before) is None
                },
            },
    {
        let MotionFile { initial_positions, interpolation_mode, motion } = motion_file;
        if motion.len() == 0 {
            return Err(MotionError::EmptyMotion);
        }
        let mut frames: Vec<ConditionedSpline<T, C>> = Vec::new();
        let mut start = initial_positions;
        for frame in iter: motion
            invariant
                iter.seq() == motion_file.motion@,
                motion_file.motion@.len() <= usize::MAX,
                motion_file.initial_positions == initial_positions,
                motion_file.interpolation_mode == interpolation_mode,
                frames@.len() == iter.index(),
                start == motion_file.phase_start(iter.index()),
                forall|built: int|
                    0 <= built < frames@.len() ==> (#[trigger] frames@[built])@
                        == motion_file.phase(built),
                forall|built: int|
                    0 <= built < frames@.len() ==> motion_file.phase_error(built) is None,
        {
            let MotionFileFrame { entry_condition, keyframes, exit_condition } = frame;
            match TimedSpline::try_new_with_start(start, keyframes, interpolation_mode) {
                Ok(spline) => {
                    start = spline.end_position();
                    frames.push(ConditionedSpline { entry_condition, spline, exit_condition });
                },
                Err(error) => {
                    return Err(MotionError::Spline { frame: frames.len(), error });
                },
            }
        }
        proof {
            motion_file.playback_is_wf();
            assert(phases_of(frames@) =~= motion_file.playback().frames);
        }
        Ok(
            MotionInterpolator {
                frames,
                current_state: State::CheckEntry { current_frame_index: 0, time_since_start: 0 },
            },
        )
    }
}

} // verus!
