use motion_playback::timed_spline::{
    Interpolate, InterpolationMode, InterpolatorError, KeyFrame, TimedSpline,
};

/// A pose that blends exactly: thousandths of a unit, in whole numbers.
#[derive(Clone, Copy, Debug, PartialEq)]
struct Millis(i64);

impl Interpolate for Millis {
    fn interpolate(
        mode: InterpolationMode,
        from: Millis,
        to: Millis,
        elapsed: u128,
        span: u128,
    ) -> Millis {
        assert!(0 < elapsed && elapsed < span);
        match mode {
            InterpolationMode::Linear => {
                Millis(from.0 + (to.0 - from.0) * elapsed as i64 / span as i64)
            },
            InterpolationMode::Cosine => {
                let fraction = elapsed as f64 / span as f64;
                let eased = (1.0 - (fraction * std::f64::consts::PI).cos()) * 0.5;
                Millis(from.0 + ((to.0 - from.0) as f64 * eased).round() as i64)
            },
        }
    }
}

fn keyframes(keys: &[(u128, i64)]) -> Vec<KeyFrame<Millis>> {
    keys.iter()
        .map(|&(arrival_time, position)| KeyFrame { arrival_time, positions: Millis(position) })
        .collect()
}

fn curve(mode: InterpolationMode) -> TimedSpline<Millis> {
    TimedSpline::try_new_with_start(
        Millis(1000),
        keyframes(&[(100, 2000), (300, 6000), (300, 7000), (400, 3000)]),
        mode,
    )
    .unwrap()
}

#[test]
fn curve_reports_its_ends() {
    let curve = curve(InterpolationMode::Linear);
    assert_eq!(curve.start_position(), Millis(1000));
    assert_eq!(curve.end_position(), Millis(3000));
    assert_eq!(curve.total_duration(), 400);
}

#[test]
fn curve_is_at_its_start_at_time_zero() {
    assert_eq!(curve(InterpolationMode::Linear).value_at(0), Millis(1000));
    let sudden = TimedSpline::try_new_with_start(
        Millis(1000),
        keyframes(&[(0, 2000), (10, 3000)]),
        InterpolationMode::Linear,
    )
    .unwrap();
    assert_eq!(sudden.value_at(0), Millis(1000));
    assert_eq!(sudden.value_at(5), Millis(2500));
}

#[test]
fn curve_is_at_its_end_from_the_total_duration_on() {
    let curve = curve(InterpolationMode::Linear);
    assert_eq!(curve.value_at(400), Millis(3000));
    assert_eq!(curve.value_at(401), Millis(3000));
    assert_eq!(curve.value_at(u128::MAX), Millis(3000));
}

#[test]
fn curve_passes_each_keyframe_at_its_time() {
    let curve = curve(InterpolationMode::Linear);
    assert_eq!(curve.value_at(100), Millis(2000));
    // Of two keyframes at one time the later one counts.
    assert_eq!(curve.value_at(300), Millis(7000));
}

#[test]
fn curve_blends_between_keyframes() {
    let curve = curve(InterpolationMode::Linear);
    assert_eq!(curve.value_at(1), Millis(1010));
    assert_eq!(curve.value_at(25), Millis(1250));
    assert_eq!(curve.value_at(99), Millis(1990));
    assert_eq!(curve.value_at(150), Millis(3000));
    assert_eq!(curve.value_at(299), Millis(5980));
    assert_eq!(curve.value_at(350), Millis(5000));
}

#[test]
fn curve_hands_its_mode_to_the_blend() {
    let curve = curve(InterpolationMode::Cosine);
    assert_eq!(curve.value_at(50), Millis(1500));
    assert_eq!(curve.value_at(25), Millis(1146));
    assert_eq!(curve.value_at(100), Millis(2000));
}

#[test]
fn start_of_a_curve_can_be_moved() {
    let mut curve = curve(InterpolationMode::Linear);
    curve.set_initial_positions(Millis(0));
    assert_eq!(curve.start_position(), Millis(0));
    assert_eq!(curve.value_at(0), Millis(0));
    assert_eq!(curve.value_at(50), Millis(1000));
    assert_eq!(curve.value_at(100), Millis(2000));
    assert_eq!(curve.value_at(150), Millis(3000));
    assert_eq!(curve.end_position(), Millis(3000));
    assert_eq!(curve.total_duration(), 400);
}

#[test]
fn curve_of_one_keyframe_at_time_zero() {
    let curve = TimedSpline::try_new_with_start(
        Millis(1),
        keyframes(&[(0, 2)]),
        InterpolationMode::Linear,
    )
    .unwrap();
    assert_eq!(curve.total_duration(), 0);
    assert_eq!(curve.value_at(0), Millis(1));
    assert_eq!(curve.value_at(1), Millis(2));
    assert_eq!(curve.start_position(), Millis(1));
    assert_eq!(curve.end_position(), Millis(2));
}

#[test]
fn curve_without_keyframes_is_refused() {
    let made = TimedSpline::try_new_with_start(Millis(1), vec![], InterpolationMode::Linear);
    assert_eq!(made.err(), Some(InterpolatorError::NoKeyframes));
}

#[test]
fn curve_with_keyframes_out_of_order_is_refused() {
    let made = TimedSpline::try_new_with_start(
        Millis(1),
        keyframes(&[(10, 1), (20, 2), (19, 3)]),
        InterpolationMode::Linear,
    );
    assert_eq!(made.err(), Some(InterpolatorError::KeyframesOutOfOrder));
    let made = TimedSpline::try_new_with_start(
        Millis(1),
        keyframes(&[(1, 1), (0, 2)]),
        InterpolationMode::Cosine,
    );
    assert_eq!(made.err(), Some(InterpolatorError::KeyframesOutOfOrder));
}
