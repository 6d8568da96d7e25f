//! What holds of playback over any number of control cycles.

use crate::condition::{Condition, Response};
use crate::motion_interpolator::{
    follows_on, ConditionedSplineView, MotionInterpolatorView, Side, State,
};
use crate::timed_spline::Interpolate;
use vstd::prelude::*;

verus! {

/// The number of control cycles for which the cursor follows a curve of
/// `total_duration` nanoseconds, from `elapsed` nanoseconds into it on, in
/// steps of `time_step`: as many as it takes to reach the end of the curve,
/// and at least one.
pub open spec fn cycles_on_curve(total_duration: nat, elapsed: nat, time_step: nat) -> nat
    recommends
        time_step > 0,
{
    if total_duration <= elapsed {
        1
    } else {
        ((total_duration - elapsed - 1) / (time_step as int) + 1) as nat
    }
}

/// A step that does not reach the end of the curve leaves one cycle less to
/// follow it; a step that does leaves none but itself.
pub proof fn cycles_on_curve_count_down(total_duration: nat, elapsed: nat, time_step: nat)
    requires
        time_step > 0,
    ensures
        cycles_on_curve(total_duration, elapsed, time_step) == if elapsed + time_step
            < total_duration {
            1 + cycles_on_curve(total_duration, elapsed + time_step, time_step)
        } else {
            1
        },
{
    if elapsed < total_duration {
        let left = total_duration - elapsed - 1;
        if elapsed + time_step < total_duration {
            assert((left - time_step) / (time_step as int) + 1 == left / (time_step as int))
                by (nonlinear_arith)
                requires
                    time_step > 0,
                    left >= time_step,
            ;
        } else {
            assert(left / (time_step as int) == 0) by (nonlinear_arith)
                requires
                    0 <= left < time_step,
            ;
        }
    }
}

/// The number of control cycles from the entry of the phase `index` to the
/// end of the motion, in steps of `time_step` and with no condition in the
/// way: one to enter each phase, those on its curve, and one to leave it.
pub open spec fn cycles_from_entry<T, C>(
    frames: Seq<ConditionedSplineView<T, C>>,
    index: int,
    time_step: nat,
) -> nat
    decreases frames.len() - index,
{
    if index < 0 || index >= frames.len() {
        0
    } else {
        2 + cycles_on_curve(frames[index].spline.total_duration(), 0, time_step)
            + cycles_from_entry(frames, index + 1, time_step)
    }
}

impl<T, C> MotionInterpolatorView<T, C> {
    /// No phase has a condition.
    pub open spec fn unconditioned(self) -> bool {
        forall|index: int|
            0 <= index < self.frames.len() ==> {
                &&& (#[trigger] self.frames[index]).entry_condition is None
                &&& self.frames[index].exit_condition is None
            }
    }

    /// The number of control cycles from the cursor to the end of the motion,
    /// in steps of `time_step` and with no condition in the way.
    pub open spec fn cycles_to_finish(self, time_step: nat) -> nat {
        match self.state {
            State::CheckEntry { current_frame_index, .. } => cycles_from_entry(
                self.frames,
                current_frame_index as int,
                time_step,
            ),
            State::InterpolateSpline { current_frame_index, time_since_start } => 1
                + cycles_on_curve(
                self.frames[current_frame_index as int].spline.total_duration(),
                time_since_start as nat,
                time_step,
            ) + cycles_from_entry(self.frames, current_frame_index + 1, time_step),
            State::CheckExit { current_frame_index, .. } => 1 + cycles_from_entry(
                self.frames,
                current_frame_index + 1,
                time_step,
            ),
            State::Finished => 0,
            State::Aborted { .. } => 0,
        }
    }
}

impl<T, C: Condition> MotionInterpolatorView<T, C> {
    /// The machine after the control cycles `cycles`, each given by its time
    /// step and the input of the sensors.
    pub open spec fn run(self, cycles: Seq<(u128, C::Input)>) -> Self
        decreases cycles.len(),
    {
        if cycles.len() == 0 {
            self
        } else {
            self.run(cycles.drop_last()).advanced(cycles.last().0, &cycles.last().1)
        }
    }

    /// A control cycle moves the cursor only: the phases stay, and the cursor
    /// stays within them.
    pub proof fn advancing_keeps_phases(self, time_step: u128, input: &C::Input)
        requires
            self.wf(),
        ensures
            self.advanced(time_step, input).frames == self.frames,
            self.advanced(time_step, input).wf(),
    {
    }

    /// Any number of control cycles moves the cursor only.
    pub proof fn running_keeps_phases(self, cycles: Seq<(u128, C::Input)>)
        requires
            self.wf(),
        ensures
            self.run(cycles).frames == self.frames,
            self.run(cycles).wf(),
        decreases cycles.len(),
    {
        if cycles.len() > 0 {
            self.running_keeps_phases(cycles.drop_last());
            self.run(cycles.drop_last()).advancing_keeps_phases(
                cycles.last().0,
                &cycles.last().1,
            );
        }
    }

    /// Once playback has come to its end, finished or aborted, no control
    /// cycle changes anything.
    pub proof fn end_is_final(self, cycles: Seq<(u128, C::Input)>)
        requires
            self.is_finished(),
        ensures
            self.run(cycles) == self,
        decreases cycles.len(),
    {
        if cycles.len() > 0 {
            self.end_is_final(cycles.drop_last());
        }
    }

    /// With no condition in the way and a positive time step, each control
    /// cycle brings the cursor one cycle closer to the end of the motion.
    pub proof fn unconditioned_cycle_counts_down(self, time_step: u128, input: &C::Input)
        requires
            self.wf(),
            self.unconditioned(),
            time_step > 0,
            !self.is_finished(),
        ensures
            self.advanced(time_step, input).cycles_to_finish(time_step as nat) + 1
                == self.cycles_to_finish(time_step as nat),
            !(self.advanced(time_step, input).state is Aborted),
    {
        if let State::InterpolateSpline { current_frame_index, time_since_start } = self.state {
            cycles_on_curve_count_down(
                self.frames[current_frame_index as int].spline.total_duration(),
                time_since_start as nat,
                time_step as nat,
            );
        }
    }
}

impl<T: Interpolate, C: Condition> MotionInterpolatorView<T, C> {
    /// The commanded pose moves only while the cursor follows a curve: no
    /// other control cycle changes it, be it one that waits, one that steps
    /// into a phase or from one phase to the next, or one that aborts.
    pub proof fn pose_moves_only_on_curve(self, time_step: u128, input: &C::Input)
        requires
            self.wf(),
            !(self.state is InterpolateSpline),
        ensures
            self.advanced(time_step, input).value() == self.value(),
    {
        if let State::CheckExit { current_frame_index, .. } = self.state {
            if current_frame_index + 1 < self.frames.len() {
                assert(follows_on(self.frames, current_frame_index + 1));
            }
        }
    }

    /// A motion without conditions, played in control cycles of one positive
    /// time step, is finished after `cycles_to_finish` cycles and stays so,
    /// and the commanded pose is then the end of the last phase.
    pub proof fn unconditioned_playback_finishes(
        self,
        time_step: u128,
        cycles: Seq<(u128, C::Input)>,
    )
        requires
            self.wf(),
            self.unconditioned(),
            !(self.state is Aborted),
            time_step > 0,
            forall|cycle: int|
                0 <= cycle < cycles.len() ==> (#[trigger] cycles[cycle]).0 == time_step,
            cycles.len() >= self.cycles_to_finish(time_step as nat),
        ensures
            self.run(cycles).state == State::Finished,
            self.run(cycles).value() == self.frames.last().spline.end(),
    {
        self.unconditioned_playback_counts_down(time_step, cycles);
        self.running_keeps_phases(cycles);
    }

    /// With no condition in the way and a positive time step, the control
    /// cycles that are left to the end of the motion go down by one with each
    /// cycle, until none is left.
    pub proof fn unconditioned_playback_counts_down(
        self,
        time_step: u128,
        cycles: Seq<(u128, C::Input)>,
    )
        requires
            self.wf(),
            self.unconditioned(),
            !(self.state is Aborted),
            time_step > 0,
            forall|cycle: int|
                0 <= cycle < cycles.len() ==> (#[trigger] cycles[cycle]).0 == time_step,
        ensures
            !(self.run(cycles).state is Aborted),
            self.run(cycles).cycles_to_finish(time_step as nat) == if cycles.len()
                >= self.cycles_to_finish(time_step as nat) {
                0
            } else {
                self.cycles_to_finish(time_step as nat) - cycles.len()
            },
            self.run(cycles).cycles_to_finish(time_step as nat) == 0 ==> self.run(cycles).state
                == State::Finished,
        decreases cycles.len(),
    {
        if cycles.len() > 0 {
            let before = self.run(cycles.drop_last());
            self.unconditioned_playback_counts_down(time_step, cycles.drop_last());
            self.running_keeps_phases(cycles.drop_last());
            if !before.is_finished() {
                before.unconditioned_cycle_counts_down(time_step, &cycles.last().1);
            }
        }
        self.running_keeps_phases(cycles);
    }

    /// If the condition that the cursor waits on answers to abort, playback
    /// is at its end at once, aborted at the phase and on the side at which
    /// the cursor waited. The commanded pose stays as it was, the start of
    /// the phase on its entry and the end of the phase on its exit, and no
    /// later control cycle changes anything.
    pub proof fn abort_is_final(
        self,
        time_step: u128,
        input: &C::Input,
        later: Seq<(u128, C::Input)>,
    )
        requires
            self.wf(),
            self.response(input) == Some(Response::Abort),
        ensures
            self.advanced(time_step, input).is_finished(),
            self.advanced(time_step, input).state == match self.state {
                State::CheckExit { current_frame_index, .. } => State::Aborted {
                    frame_side: Side::Exit,
                    from_frame_index: current_frame_index,
                },
                State::CheckEntry { current_frame_index, .. } => State::Aborted {
                    frame_side: Side::Entry,
                    from_frame_index: current_frame_index,
                },
                _ => self.state,
            },
            self.advanced(time_step, input).value() == self.value(),
            self.state matches State::CheckEntry { current_frame_index, .. } ==> self.value()
                == self.frames[current_frame_index as int].spline.start,
            self.state matches State::CheckExit { current_frame_index, .. } ==> self.value()
                == self.frames[current_frame_index as int].spline.end(),
            self.advanced(time_step, input).run(later) == self.advanced(time_step, input),
    {
        self.advanced(time_step, input).end_is_final(later);
    }

    /// A reset of a machine that was just reset changes nothing.
    pub proof fn reset_is_idempotent(self)
        ensures
            self.reset().reset() == self.reset(),
    {
    }

    /// After any control cycles, a reset brings the commanded pose back to
    /// the start of the first phase, and playback is not at its end.
    pub proof fn reset_restores_start(self, cycles: Seq<(u128, C::Input)>)
        requires
            self.wf(),
        ensures
            self.run(cycles).reset().value() == self.frames[0].spline.start,
            !self.run(cycles).reset().is_finished(),
            self.run(cycles).reset() == self.reset(),
    {
        self.running_keeps_phases(cycles);
    }

    /// A start pose that is set right after a reset is the commanded pose
    /// after the next control cycle, whatever the entry condition of the
    /// first phase answers.
    pub proof fn seeded_start_is_commanded(self, position: T, time_step: u128, input: &C::Input)
        requires
            self.wf(),
        ensures
            self.reset().with_initial_positions(position).advanced(time_step, input).value()
                == position,
    {
    }
}

} // verus!
