//! A curve through keyframe poses, indexed by the time since its start.
//!
//! Times are whole nanoseconds. The curve knows which two keyframes surround
//! a point in time; how a pose blends from one keyframe to the next is left
//! to the pose type.

use vstd::prelude::*;

verus! {

/// How a pose blends from one keyframe to the next.
#[derive(Clone, Copy, Debug, PartialEq, Eq, Structural)]
pub enum InterpolationMode {
    /// At a constant rate.
    Linear,
    /// Along half a cosine wave: slowly at both keyframes, fastest halfway.
    Cosine,
}

/// A pose that can be blended with another one, given how far along the way
/// between the two the blend lies.
///
/// The curve takes the blend to be a function of its arguments: the same
/// mode, poses and times give the same pose. Nothing verifies that of an
/// implementation in plain Rust.
pub trait Interpolate: Copy {
    /// The blend as a function of its arguments. A verified implementation
    /// defines it; for any other it stands for whatever `interpolate`
    /// computes.
    open spec fn blend(
        mode: InterpolationMode,
        from: Self,
        to: Self,
        elapsed: nat,
        span: nat,
    ) -> Self {
        vstd::pervasive::arbitrary::<spec_fn(InterpolationMode, Self, Self, nat, nat) -> Self>()(
            mode,
            from,
            to,
            elapsed,
            span,
        )
    }

    /// The pose `elapsed` nanoseconds after `from`, on the way to `to`, which
    /// is reached after `span` nanoseconds. Only asked strictly between the
    /// two.
    fn interpolate(
        mode: InterpolationMode,
        from: Self,
        to: Self,
        elapsed: u128,
        span: u128,
    ) -> (pose: Self)
        requires
            0 < elapsed < span,
        ensures
            pose == Self::blend(mode, from, to, elapsed as nat, span as nat),
    ;
}

/// A pose and the time at which the curve reaches it.
#[derive(Debug)]
pub struct KeyFrame<T> {
    /// Nanoseconds since the start of the curve.
    pub arrival_time: u128,
    pub positions: T,
}

/// Why a curve could not be built.
#[derive(Clone, Copy, Debug, PartialEq, Eq, Structural)]
pub enum InterpolatorError {
    /// There is no keyframe, so the curve has no end.
    NoKeyframes,
    /// Some keyframe is to be reached before the one in front of it.
    KeyframesOutOfOrder,
}

/// No keyframe is to be reached before one in front of it.
pub open spec fn in_order<T>(keyframes: Seq<KeyFrame<T>>) -> bool {
    forall|earlier: int, later: int|
        0 <= earlier <= later < keyframes.len() ==> keyframes[earlier].arrival_time
            <= keyframes[later].arrival_time
}

/// Why no curve passes through `keyframes`, if none does.
pub open spec fn curve_error<T>(keyframes: Seq<KeyFrame<T>>) -> Option<InterpolatorError> {
    if keyframes.len() == 0 {
        Some(InterpolatorError::NoKeyframes)
    } else if !in_order(keyframes) {
        Some(InterpolatorError::KeyframesOutOfOrder)
    } else {
        None
    }
}

/// What a curve is: where it starts, the keyframes it passes, and how it
/// blends between them.
pub struct TimedSplineView<T> {
    pub start: T,
    pub keyframes: Seq<KeyFrame<T>>,
    pub mode: InterpolationMode,
}

impl<T> TimedSplineView<T> {
    /// The curve has an end, and passes its keyframes in order.
    pub open spec fn wf(self) -> bool {
        curve_error(self.keyframes) is None
    }

    /// The time at which keyframe `index` is reached. The start pose counts
    /// as keyframe -1, at time 0.
    pub open spec fn arrival(self, index: int) -> nat {
        if index < 0 {
            0
        } else {
            self.keyframes[index].arrival_time as nat
        }
    }

    /// The pose of keyframe `index`; the start pose is keyframe -1.
    pub open spec fn pose(self, index: int) -> T {
        if index < 0 {
            self.start
        } else {
            self.keyframes[index].positions
        }
    }

    /// The time from the start pose to the last keyframe.
    pub open spec fn total_duration(self) -> nat {
        self.arrival(self.keyframes.len() - 1)
    }

    pub open spec fn end(self) -> T {
        self.pose(self.keyframes.len() - 1)
    }

    /// Keyframe `index` is the next one to be reached at `time_point`: the
    /// one before it has been reached, and it has not.
    pub open spec fn heads_for(self, index: int, time_point: nat) -> bool {
        &&& 0 <= index < self.keyframes.len()
        &&& self.arrival(index - 1) <= time_point < self.arrival(index)
    }

    /// The keyframe that the curve heads for at `time_point`, which lies
    /// before the end of the curve.
    pub open spec fn target(self, time_point: nat) -> int {
        choose|index: int| self.heads_for(index, time_point)
    }

    /// The same curve from another start pose.
    pub open spec fn with_start(self, start: T) -> Self {
        TimedSplineView { start, ..self }
    }

    /// The keyframe that the curve heads for is the one that has not been
    /// reached while the one before it has: there is no other such keyframe.
    pub proof fn target_is(self, index: int, time_point: nat)
        requires
            self.wf(),
            self.heads_for(index, time_point),
        ensures
            self.target(time_point) == index,
    {
    }
}

impl<T: Interpolate> TimedSplineView<T> {
    /// The pose at `time_point`: the start pose at time 0, the end pose from
    /// the total duration on, the pose of a keyframe at the moment it is
    /// reached, and in between the blend from the keyframe behind to the one
    /// ahead.
    pub open spec fn value_at(self, time_point: nat) -> T {
        if time_point == 0 {
            self.start
        } else if time_point >= self.total_duration() {
            self.end()
        } else {
            let ahead = self.target(time_point);
            let elapsed = (time_point - self.arrival(ahead - 1)) as nat;
            let span = (self.arrival(ahead) - self.arrival(ahead - 1)) as nat;
            if elapsed == 0 {
                self.pose(ahead - 1)
            } else {
                T::blend(self.mode, self.pose(ahead - 1), self.pose(ahead), elapsed, span)
            }
        }
    }
}

/// A curve from a start pose through a non-empty list of keyframes.
#[derive(Debug)]
pub struct TimedSpline<T> {
    start: T,
    keyframes: Vec<KeyFrame<T>>,
    mode: InterpolationMode,
}

impl<T> View for TimedSpline<T> {
    type V = TimedSplineView<T>;

    closed spec fn view(&self) -> TimedSplineView<T> {
        TimedSplineView { start: self.start, keyframes: self.keyframes@, mode: self.mode }
    }
}

impl<T> TimedSpline<T> {
    #[verifier::type_invariant]
    closed spec fn inv(self) -> bool {
        self@.wf()
    }
}

impl<T: Interpolate> TimedSpline<T> {
    /// Builds the curve that starts at `initial_positions` and passes the
    /// keyframes. Fails if there is no keyframe, or if some keyframe is to be
    /// reached before the one in front of it.
    pub fn try_new_with_start(
        initial_positions: T,
        keyframes: Vec<KeyFrame<T>>,
        interpolation_mode: InterpolationMode,
    ) -> (made: Result<Self, InterpolatorError>)
        ensures
            match made {
                Ok(spline) => {
                    &&& curve_error(keyframes@) is None
                    &&& spline@.start == initial_positions
                    &&& spline@.keyframes == keyframes@
                    &&& spline@.mode == interpolation_mode
                },
                Err(error) => curve_error(keyframes@) == Some(error),
            },
    {
        if keyframes.len() == 0 {
            return Err(InterpolatorError::NoKeyframes);
        }
        let mut index: usize = 1;
        while index < keyframes.len()
            invariant
                1 <= index <= keyframes@.len(),
                forall|earlier: int, later: int|
                    0 <= earlier <= later < index ==> keyframes@[earlier].arrival_time
                        <= keyframes@[later].arrival_time,
            decreases keyframes@.len() - index,
        {
            if keyframes[index - 1].arrival_time > keyframes[index].arrival_time {
                return Err(InterpolatorError::KeyframesOutOfOrder);
            }
            index += 1;
        }
        Ok(TimedSpline { start: initial_positions, keyframes, mode: interpolation_mode })
    }

    /// The time from the start pose to the last keyframe, in nanoseconds.
    pub fn total_duration(&self) -> (duration: u128)
        ensures
            duration == self@.total_duration(),
            self@.wf(),
    {
        proof {
            use_type_invariant(self);
        }
        self.keyframes[self.keyframes.len() - 1].arrival_time
    }

    pub fn start_position(&self) -> (pose: T)
        ensures
            pose == self@.start,
            self@.wf(),
    {
        proof {
            use_type_invariant(self);
        }
        self.start
    }

    pub fn end_position(&self) -> (pose: T)
        ensures
            pose == self@.end(),
            self@.wf(),
    {
        proof {
            use_type_invariant(self);
        }
        self.keyframes[self.keyframes.len() - 1].positions
    }

    /// The pose `time_point` nanoseconds after the start of the curve.
    pub fn value_at(&self, time_point: u128) -> (pose: T)
        ensures
            pose == self@.value_at(time_point as nat),
            self@.wf(),
    {
        proof {
            use_type_invariant(self);
        }
        let last = self.keyframes.len() - 1;
        if time_point == 0 {
            return self.start;
        }
        if time_point >= self.keyframes[last].arrival_time {
            return self.keyframes[last].positions;
        }
        let mut ahead: usize = 0;
        while self.keyframes[ahead].arrival_time <= time_point
            invariant
                ahead <= last,
                last == self.keyframes@.len() - 1,
                time_point < self.keyframes@[last as int].arrival_time,
                ahead > 0 ==> self.keyframes@[ahead - 1].arrival_time <= time_point,
            decreases last - ahead,
        {
            ahead += 1;
        }
        let reached: u128 = if ahead == 0 {
            0
        } else {
            self.keyframes[ahead - 1].arrival_time
        };
        let from = if ahead == 0 {
            self.start
        } else {
            self.keyframes[ahead - 1].positions
        };
        proof {
            self@.target_is(ahead as int, time_point as nat);
        }
        if time_point == reached {
            from
        } else {
            T::interpolate(
                self.mode,
                from,
                self.keyframes[ahead].positions,
                time_point - reached,
                self.keyframes[ahead].arrival_time - reached,
            )
        }
    }

    /// Moves the start of the curve to `position`; the keyframes stay.
    pub fn set_initial_positions(&mut self, position: T)
        ensures
            final(self)@ == old(self)@.with_start(position),
            final(self)@.wf(),
        no_unwind
    {
        proof {
            use_type_invariant(&*self);
        }
        self.start = position;
    }
}

} // verus!
