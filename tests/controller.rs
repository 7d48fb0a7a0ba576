use crabroll::controller::{
    dispatch, jog_continues, motor_stepper, move_target, position_percent, store_feedback,
    travel_limit_at_boot, Command, ErrorSeverity, Feedback, Motion, DEFAULT_TRAVEL_LIMIT,
};
use crabroll::input::position_payload;
use crabroll::stepper::{Direction, Stepper, StepperError};

/// Runs a dispatch the way the motor task does, with the endstop reached after `endstop_after`
/// homing steps; returns the number of delays emitted.
fn run(stepper: &mut Stepper, motion: Motion, endstop_after: u32) -> u32 {
    let mut count = 0;
    match motion {
        Motion::Idle => {}
        Motion::Homing(mut h, _) => {
            while h.next(stepper, count >= endstop_after).is_some() {
                count += 1;
            }
        }
        Motion::Jog(mut j, _) => {
            while j.next(stepper, count < endstop_after).is_some() {
                count += 1;
            }
        }
        Motion::Planned(mut p, _) => {
            while p.next(stepper).is_some() {
                count += 1;
            }
        }
    }
    count
}

fn homed(travel_limit: u32) -> Stepper {
    let mut stepper = motor_stepper(travel_limit);
    let d = dispatch(&mut stepper, Command::Home);
    run(&mut stepper, d.motion, 0);
    stepper
}

#[test]
fn boot_without_stored_limit() {
    let (limit, store_default, feedback) = travel_limit_at_boot(Ok(None));
    assert_eq!(limit, DEFAULT_TRAVEL_LIMIT);
    assert_eq!(limit, 2048);
    assert!(store_default);
    assert_eq!(feedback, Feedback::Nothing);
    assert_eq!(store_feedback(true), Feedback::Confirm);

    let mut stepper = motor_stepper(limit);
    let d = dispatch(&mut stepper, Command::Home);
    assert_eq!(d.feedback, Feedback::Confirm);
    assert_eq!(d.persist, None);
    assert_eq!(run(&mut stepper, d.motion, 3), 3);
    assert_eq!(stepper.pos(), Some(0));
    assert_eq!(position_percent(&stepper), 0);
}

#[test]
fn boot_with_stored_or_failed_limit() {
    assert_eq!(travel_limit_at_boot(Ok(Some(1500))), (1500, false, Feedback::Confirm));
    assert_eq!(
        travel_limit_at_boot(Err(())),
        (2048, false, Feedback::Error(ErrorSeverity::Hard))
    );
    assert_eq!(
        travel_limit_at_boot(Ok(Some(0))),
        (2048, false, Feedback::Error(ErrorSeverity::Hard))
    );
    assert_eq!(store_feedback(false), Feedback::Error(ErrorSeverity::Hard));
}

#[test]
fn move_to_fifty_percent() {
    let mut stepper = homed(2048);
    let d = dispatch(&mut stepper, Command::MoveToPos(50));
    assert_eq!(d.feedback, Feedback::Nothing);
    match &d.motion {
        Motion::Planned(_, dir) => assert_eq!(*dir, Direction::AwayFromHome),
        _ => panic!("expected a planned move"),
    }
    assert_eq!(run(&mut stepper, d.motion, 0), 1024);
    assert_eq!(stepper.pos(), Some(1024));
    assert_eq!(position_percent(&stepper), 50);
    assert_eq!(position_payload(position_percent(&stepper)), b"50".to_vec());
}

#[test]
fn planner_refuses_out_of_range_target() {
    let stepper = homed(2048);
    assert_eq!(stepper.planned_move(2049).err(), Some(StepperError::MoveOutOfBounds));
    assert_eq!(stepper.pos(), Some(0));
}

#[test]
fn set_bottom_then_full_move() {
    let mut stepper = homed(2048);
    let d = dispatch(&mut stepper, Command::MoveToPos(0));
    run(&mut stepper, d.motion, 0);
    let (mut p, _) = stepper.planned_move(1500).unwrap();
    while p.next(&mut stepper).is_some() {}
    assert_eq!(stepper.pos(), Some(1500));

    let d = dispatch(&mut stepper, Command::SetBottom);
    assert_eq!(d.persist, Some(1500));
    assert!(matches!(d.motion, Motion::Idle));
    assert_eq!(stepper.travel_limit(), 1500);
    assert_eq!(store_feedback(true), Feedback::Confirm);
    assert_eq!(position_percent(&stepper), 100);

    assert_eq!(move_target(100, stepper.travel_limit()), Some(1500));
    let d = dispatch(&mut stepper, Command::MoveToPos(100));
    assert_eq!(d.feedback, Feedback::Nothing);
    assert_eq!(run(&mut stepper, d.motion, 0), 0);
    assert_eq!(stepper.pos(), Some(1500));
}

#[test]
fn set_bottom_at_home_keeps_limit_positive() {
    let mut stepper = homed(2048);
    let d = dispatch(&mut stepper, Command::SetBottom);
    assert_eq!(d.persist, Some(1));
    assert_eq!(stepper.travel_limit(), 1);
}

#[test]
fn commands_before_homing_fail_softly() {
    let mut stepper = motor_stepper(2048);
    let soft = Feedback::Error(ErrorSeverity::Soft);
    assert_eq!(dispatch(&mut stepper, Command::SetBottom).feedback, soft);
    assert_eq!(dispatch(&mut stepper, Command::MoveToPos(10)).feedback, soft);
    assert_eq!(dispatch(&mut stepper, Command::StartJog(Direction::ToHome)).feedback, soft);
    assert_eq!(dispatch(&mut stepper, Command::StopJog).feedback, Feedback::Nothing);
    assert_eq!(stepper.travel_limit(), 2048);
    assert_eq!(position_percent(&stepper), 0);
}

#[test]
fn move_percentages_out_of_range() {
    let mut stepper = homed(2048);
    let soft = Feedback::Error(ErrorSeverity::Soft);
    assert_eq!(dispatch(&mut stepper, Command::MoveToPos(-1)).feedback, soft);
    assert_eq!(dispatch(&mut stepper, Command::MoveToPos(101)).feedback, soft);
    assert_eq!(move_target(-5, 2048), None);
    assert_eq!(move_target(75, 2048), Some(1536));
    assert_eq!(move_target(127, u32::MAX), None);
}

#[test]
fn jog_cancelled_by_stop() {
    let mut stepper = homed(2048);
    let d = dispatch(&mut stepper, Command::StartJog(Direction::AwayFromHome));
    assert_eq!(d.feedback, Feedback::Nothing);
    let mut jog = match d.motion {
        Motion::Jog(j, dir) => {
            assert_eq!(dir, Direction::AwayFromHome);
            j
        }
        _ => panic!("expected a jog"),
    };
    // About 250 ms at 64 steps/s: 16 steps before the stop arrives.
    let mut emitted = 0;
    loop {
        let taken = if emitted == 16 { Some(Command::StopJog) } else { None };
        let (go_on, pending) = jog_continues(taken);
        if jog.next(&mut stepper, go_on).is_none() {
            assert_eq!(pending, None);
            break;
        }
        emitted += 1;
    }
    assert_eq!(emitted, 16);
    assert_eq!(stepper.pos(), Some(16));
}

#[test]
fn jog_ended_by_other_command() {
    assert_eq!(jog_continues(None), (true, None));
    assert_eq!(jog_continues(Some(Command::StopJog)), (false, None));
    assert_eq!(
        jog_continues(Some(Command::MoveToPos(30))),
        (false, Some(Command::MoveToPos(30)))
    );
}

#[test]
fn position_percent_clamped() {
    let mut stepper = homed(100);
    let d = dispatch(&mut stepper, Command::StartJog(Direction::AwayFromHome));
    run(&mut stepper, d.motion, 150);
    assert_eq!(stepper.pos(), Some(150));
    assert_eq!(position_percent(&stepper), 100);
    let d = dispatch(&mut stepper, Command::StartJog(Direction::ToHome));
    run(&mut stepper, d.motion, 93);
    assert_eq!(position_percent(&stepper), 57);
}
