use motion_playback::behavior::execute;
use motion_playback::condition::{Condition, Response};
use motion_playback::motion_file::{MotionFile, MotionFileFrame};
use motion_playback::motion_interpolator::MotionError;
use motion_playback::stand_up_front::{CreationContext, CycleContext, StandUpFront};
use motion_playback::timed_spline::{
    Interpolate, InterpolationMode, InterpolatorError, KeyFrame,
};
use motion_playback::types::{
    CycleTime, FallState, Kind, MotionCommand, MotionFinished, MotionSelection, MotionType,
    RobotState, WorldState,
};

const SECOND: u128 = 1_000_000_000;

#[derive(Clone, Copy, Debug, PartialEq)]
struct Pose(f32);

impl Interpolate for Pose {
    fn interpolate(
        _mode: InterpolationMode,
        from: Pose,
        to: Pose,
        elapsed: u128,
        span: u128,
    ) -> Pose {
        Pose(from.0 + (to.0 - from.0) * (elapsed as f32 / span as f32))
    }
}

/// Answers what the input says.
struct Scripted;

impl Condition for Scripted {
    type Input = Response;

    fn evaluate(&self, input: &Response, _time_since_start: u128) -> Response {
        *input
    }
}

fn world(fall_state: FallState) -> WorldState {
    WorldState { robot: RobotState { fall_state } }
}

#[test]
fn fallen_on_the_back_asks_to_stand_up_from_the_back() {
    assert_eq!(
        execute(&world(FallState::Fallen { kind: Kind::FacingUp })),
        Some(MotionCommand::StandUp { kind: Kind::FacingUp })
    );
}

#[test]
fn fallen_asks_to_stand_up_as_fallen() {
    for kind in [Kind::FacingDown, Kind::FacingUp, Kind::Sitting] {
        assert_eq!(
            execute(&world(FallState::Fallen { kind })),
            Some(MotionCommand::StandUp { kind })
        );
    }
}

#[test]
fn getting_up_from_the_front_keeps_asking() {
    assert_eq!(
        execute(&world(FallState::StandingUp { kind: Kind::FacingDown })),
        Some(MotionCommand::StandUp { kind: Kind::FacingDown })
    );
    assert_eq!(
        execute(&world(FallState::StandingUp { kind: Kind::Sitting })),
        Some(MotionCommand::StandUp { kind: Kind::Sitting })
    );
}

#[test]
fn upright_asks_for_nothing() {
    assert_eq!(execute(&world(FallState::Upright)), None);
}

fn stand_up() -> StandUpFront<Pose, Scripted> {
    let made = StandUpFront::new(CreationContext {
        motion_file: MotionFile {
            initial_positions: Pose(0.0),
            interpolation_mode: InterpolationMode::Linear,
            motion: vec![
                MotionFileFrame {
                    entry_condition: None,
                    keyframes: vec![KeyFrame { arrival_time: SECOND, positions: Pose(1.0) }],
                    exit_condition: Some(Scripted),
                },
                MotionFileFrame {
                    entry_condition: None,
                    keyframes: vec![KeyFrame { arrival_time: 2 * SECOND, positions: Pose(2.0) }],
                    exit_condition: None,
                },
            ],
        },
    });
    match made {
        Ok(motion) => motion,
        Err(error) => panic!("{:?}", error),
    }
}

const NOTHING_FINISHED: MotionFinished =
    MotionFinished { stand: false, stand_up_back: false, stand_up_front: false };

fn cycle(
    motion: &mut StandUpFront<Pose, Scripted>,
    current_motion: MotionType,
    last_cycle_duration: u128,
    response: Response,
    motion_finished: &mut MotionFinished,
) -> Pose {
    motion
        .cycle(CycleContext {
            condition_input: &response,
            cycle_time: CycleTime { last_cycle_duration },
            motion_selection: MotionSelection { current_motion },
            motion_finished,
        })
        .stand_up_front_positions
}

#[test]
fn selected_motion_plays_and_reports_its_end() {
    let mut motion = stand_up();
    let mut finished = NOTHING_FINISHED;
    let mut poses = vec![];
    let mut flags = vec![];
    for _ in 0..11 {
        let pose = cycle(
            &mut motion,
            MotionType::StandUpFront,
            SECOND / 2,
            Response::Continue,
            &mut finished,
        );
        poses.push(pose.0);
        flags.push(finished.stand_up_front);
    }
    assert_eq!(poses, vec![0.0, 0.5, 1.0, 1.0, 1.0, 1.25, 1.5, 1.75, 2.0, 2.0, 2.0]);
    assert_eq!(
        flags,
        vec![false, false, false, false, false, false, false, false, false, true, true]
    );
    assert_eq!(finished, MotionFinished { stand_up_front: true, ..NOTHING_FINISHED });
}

#[test]
fn reselected_motion_starts_anew() {
    let mut motion = stand_up();
    let mut finished = NOTHING_FINISHED;
    let mut pose = Pose(0.0);
    for _ in 0..7 {
        pose = cycle(
            &mut motion,
            MotionType::StandUpFront,
            SECOND / 2,
            Response::Continue,
            &mut finished,
        );
    }
    assert_eq!(pose, Pose(1.5));

    let idle = cycle(&mut motion, MotionType::Stand, SECOND / 2, Response::Continue, &mut finished);
    assert_eq!(idle, Pose(0.0));
    assert!(!finished.stand_up_front);

    let mut poses = vec![];
    for _ in 0..3 {
        let pose = cycle(
            &mut motion,
            MotionType::StandUpFront,
            SECOND / 2,
            Response::Continue,
            &mut finished,
        );
        poses.push(pose.0);
    }
    assert_eq!(poses, vec![0.0, 0.5, 1.0]);
}

#[test]
fn deselected_motion_lowers_its_flag_and_no_other() {
    let mut motion = stand_up();
    let mut finished = MotionFinished { stand: true, stand_up_back: true, stand_up_front: true };
    let pose = cycle(
        &mut motion,
        MotionType::StandUpBack,
        SECOND,
        Response::Abort,
        &mut finished,
    );
    assert_eq!(pose, Pose(0.0));
    assert_eq!(
        finished,
        MotionFinished { stand: true, stand_up_back: true, stand_up_front: false }
    );
}

#[test]
fn aborted_motion_reports_its_end_while_selected() {
    let mut motion = stand_up();
    let mut finished = MotionFinished { stand: true, ..NOTHING_FINISHED };
    let selected = MotionType::StandUpFront;
    for _ in 0..3 {
        cycle(&mut motion, selected, SECOND / 2, Response::Continue, &mut finished);
    }
    assert!(!finished.stand_up_front);
    let pose = cycle(&mut motion, selected, SECOND / 2, Response::Abort, &mut finished);
    assert_eq!(pose, Pose(1.0));
    assert_eq!(
        finished,
        MotionFinished { stand: true, stand_up_back: false, stand_up_front: true }
    );
    let pose = cycle(&mut motion, selected, SECOND, Response::Continue, &mut finished);
    assert_eq!(pose, Pose(1.0));
    assert!(finished.stand_up_front);
    let pose = cycle(&mut motion, MotionType::Stand, SECOND, Response::Continue, &mut finished);
    assert_eq!(pose, Pose(0.0));
    assert!(!finished.stand_up_front);
}

#[test]
fn compute_moves_on_without_asking_for_the_selection() {
    let mut motion = stand_up();
    let mut finished = MotionFinished { stand_up_front: true, ..NOTHING_FINISHED };
    let pose = motion.compute_stand_up_front(CycleContext {
        condition_input: &Response::Continue,
        cycle_time: CycleTime { last_cycle_duration: SECOND / 4 },
        motion_selection: MotionSelection { current_motion: MotionType::Stand },
        motion_finished: &mut finished,
    });
    assert_eq!(pose, Pose(0.0));
    assert!(!finished.stand_up_front);
    let pose = motion.compute_stand_up_front(CycleContext {
        condition_input: &Response::Continue,
        cycle_time: CycleTime { last_cycle_duration: SECOND / 4 },
        motion_selection: MotionSelection { current_motion: MotionType::Stand },
        motion_finished: &mut finished,
    });
    assert_eq!(pose, Pose(0.25));
}

#[test]
fn motion_without_frames_is_not_created() {
    let made = StandUpFront::<Pose, Scripted>::new(CreationContext {
        motion_file: MotionFile {
            initial_positions: Pose(0.0),
            interpolation_mode: InterpolationMode::Linear,
            motion: vec![],
        },
    });
    assert_eq!(made.err(), Some(MotionError::EmptyMotion));
}

#[test]
fn motion_with_a_broken_frame_is_not_created() {
    let made = StandUpFront::<Pose, Scripted>::new(CreationContext {
        motion_file: MotionFile {
            initial_positions: Pose(0.0),
            interpolation_mode: InterpolationMode::Linear,
            motion: vec![MotionFileFrame {
                entry_condition: None,
                keyframes: vec![],
                exit_condition: None,
            }],
        },
    });
    assert_eq!(
        made.err(),
        Some(MotionError::Spline { frame: 0, error: InterpolatorError::NoKeyframes })
    );
}

#[test]
fn flags_are_kept_per_motion() {
    let mut finished = NOTHING_FINISHED;
    finished.set(MotionType::StandUpBack, true);
    assert_eq!(finished, MotionFinished { stand_up_back: true, ..NOTHING_FINISHED });
    assert!(finished.get(MotionType::StandUpBack));
    assert!(!finished.get(MotionType::Stand));
    assert!(!finished.get(MotionType::StandUpFront));
    finished.set(MotionType::Stand, true);
    finished.set(MotionType::StandUpFront, true);
    finished.set(MotionType::StandUpBack, false);
    assert_eq!(
        finished,
        MotionFinished { stand: true, stand_up_back: false, stand_up_front: true }
    );
}
