use vstd::prelude::*;

use crate::stepper::{
    plan_start, start_delay_of, ContinuousJog, Direction, HomingMove, PlannedMove, Stepper,
    StepperError, StepperView,
};

verus! {

/// Travel limit used until one is stored.
pub const DEFAULT_TRAVEL_LIMIT: u32 = 2048;

/// Top speed of the motor in steps/s.
pub const MAX_VEL: u32 = 2048;

/// Acceleration bound of the motor in steps/s².
pub const MAX_ACCEL: u32 = 225;

/// Start and stop speed of the motor in steps/s.
pub const START_VEL: u32 = 64;

/// Key of the travel limit in the persistent store.
pub const TRAVEL_LIMIT_KEY: u8 = 0;

/// A press held at least this long, in milliseconds, is a long press.
pub const LONG_PRESS_MS: u64 = 1000;

/// A request to the motor task. A newer command replaces one not yet taken.
#[derive(Debug, Clone, Copy, PartialEq, Eq, Structural)]
pub enum Command {
    /// Move to the endstop and take it as position 0.
    Home,
    /// Move in a direction until told to stop.
    StartJog(Direction),
    /// End a jog.
    StopJog,
    /// Take the current position as the new travel limit.
    SetBottom,
    /// Move to a percentage of the travel limit.
    MoveToPos(i8),
}

/// How bad a failure is: a soft one drops the command, a hard one is a storage failure.
#[derive(Debug, Clone, Copy, PartialEq, Eq, Structural)]
pub enum ErrorSeverity {
    Soft,
    Hard,
}

/// What to signal once a command is done.
#[derive(Debug, Clone, Copy, PartialEq, Eq, Structural)]
pub enum Feedback {
    Nothing,
    Confirm,
    Error(ErrorSeverity),
}

/// The steps a command asks for, with the direction to set on the driver.
pub enum Motion {
    Idle,
    Homing(HomingMove, Direction),
    Jog(ContinuousJog, Direction),
    Planned(PlannedMove, Direction),
}

/// What the motor task does for one command: run `motion`, store `persist` as the travel limit
/// where there is one (and signal as [`store_feedback`] says), and signal `feedback`.
pub struct Dispatch {
    pub motion: Motion,
    pub persist: Option<u32>,
    pub feedback: Feedback,
}

/// Target in steps of a move to `percent` of `travel_limit`.
pub open spec fn move_target_spec(percent: int, travel_limit: int) -> int {
    percent * travel_limit / 100
}

/// The travel limit that `SetBottom` takes at position `pos`.
pub open spec fn bottom_of(pos: u32) -> u32 {
    if pos == 0 {
        1
    } else {
        pos
    }
}

/// `pos` as a percentage of `travel_limit`, at most 100.
pub open spec fn percent_of(pos: int, travel_limit: int) -> int {
    if pos * 100 / travel_limit > 100 {
        100
    } else {
        pos * 100 / travel_limit
    }
}

/// How the dispatcher answers `cmd` on a planner in state `v`; the motion is described by
/// [`motion_ok`].
pub open spec fn dispatch_spec(v: StepperView, cmd: Command) -> (Option<u32>, Feedback) {
    match cmd {
        Command::Home => (None, Feedback::Confirm),
        Command::StartJog(_) => if v.pos is None {
            (None, Feedback::Error(ErrorSeverity::Soft))
        } else {
            (None, Feedback::Nothing)
        },
        Command::StopJog => (None, Feedback::Nothing),
        Command::SetBottom => match v.pos {
            Some(p) => (Some(bottom_of(p)), Feedback::Nothing),
            None => (None, Feedback::Error(ErrorSeverity::Soft)),
        },
        Command::MoveToPos(pct) => if v.pos is Some && 0 <= pct && move_target_spec(
            pct as int,
            v.travel_limit as int,
        ) <= v.travel_limit {
            (None, Feedback::Nothing)
        } else {
            (None, Feedback::Error(ErrorSeverity::Soft))
        },
    }
}

/// The motion of a dispatch of `cmd` on a planner in state `v` is the one the command asks for.
pub open spec fn motion_ok(v: StepperView, cmd: Command, m: Motion) -> bool {
    match cmd {
        Command::Home => m matches Motion::Homing(h, dir) && h.spec_delay() == start_delay_of(
            v.start_vel as int,
        ) && h.spec_steps_moved() == 0 && !h.spec_finished() && dir == v.dir_to_home,
        Command::StartJog(d) => if v.pos is None {
            m is Idle
        } else {
            m matches Motion::Jog(j, dir) && dir == d && j.spec_dir() == d && j.spec_delay()
                == start_delay_of(v.start_vel as int) && !j.spec_finished()
        },
        Command::MoveToPos(pct) => if dispatch_spec(v, cmd).1 == Feedback::Nothing {
            m matches Motion::Planned(p, dir) && p@ == plan_start(
                v,
                move_target_spec(pct as int, v.travel_limit as int) as u32,
            ) && dir == p@.dir && p@.inv(v)
        } else {
            m is Idle
        },
        _ => m is Idle,
    }
}

/// The signal that follows an attempt to store a value: a confirmation, or a hard error.
pub fn store_feedback(stored: bool) -> (r: Feedback)
    ensures
        r == if stored {
            Feedback::Confirm
        } else {
            Feedback::Error(ErrorSeverity::Hard)
        },
{
    if stored {
        Feedback::Confirm
    } else {
        Feedback::Error(ErrorSeverity::Hard)
    }
}

/// The travel limit to start with, from what reading the store gave (`Err` for a failed read),
/// and whether the default is to be written to the store. A stored limit is confirmed; a
/// missing one gives the default, to be stored; a failed read, or a stored 0, gives the default
/// and a hard error.
pub fn travel_limit_at_boot(fetched: Result<Option<u32>, ()>) -> (r: (u32, bool, Feedback))
    ensures
        r == match fetched {
            Ok(Some(l)) => if l > 0 {
                (l, false, Feedback::Confirm)
            } else {
                (DEFAULT_TRAVEL_LIMIT, false, Feedback::Error(ErrorSeverity::Hard))
            },
            Ok(None) => (DEFAULT_TRAVEL_LIMIT, true, Feedback::Nothing),
            Err(_) => (DEFAULT_TRAVEL_LIMIT, false, Feedback::Error(ErrorSeverity::Hard)),
        },
        r.0 > 0,
{
    match fetched {
        Ok(Some(l)) => {
            if l > 0 {
                (l, false, Feedback::Confirm)
            } else {
                (DEFAULT_TRAVEL_LIMIT, false, Feedback::Error(ErrorSeverity::Hard))
            }
        },
        Ok(None) => (DEFAULT_TRAVEL_LIMIT, true, Feedback::Nothing),
        Err(_) => (DEFAULT_TRAVEL_LIMIT, false, Feedback::Error(ErrorSeverity::Hard)),
    }
}

/// The planner the motor task runs, with the given travel limit.
pub fn motor_stepper(travel_limit: u32) -> (r: Stepper)
    requires
        travel_limit > 0,
    ensures
        r@.wf(),
        r@.travel_limit == travel_limit,
        r@.max_speed == MAX_VEL,
        r@.max_accel == MAX_ACCEL,
        r@.start_vel == START_VEL,
        r@.dir_to_home == Direction::ToHome,
        r@.pos is None,
{
    Stepper::new(travel_limit, MAX_VEL, MAX_ACCEL, START_VEL, Direction::ToHome)
}

/// Target in steps of a move to `percent` of `travel_limit`, or `None` where it cannot be in
/// range: a negative percentage, or a target beyond the `u32` range.
pub fn move_target(percent: i8, travel_limit: u32) -> (r: Option<u32>)
    ensures
        r matches Some(t) ==> percent >= 0 && t == move_target_spec(
            percent as int,
            travel_limit as int,
        ),
        r is None ==> percent < 0 || move_target_spec(percent as int, travel_limit as int)
            > u32::MAX,
{
    if percent < 0 {
        return None;
    }
    let pct = percent as u64;
    assert(pct * (travel_limit as u64) <= 127 * 0xffff_ffffu64) by (nonlinear_arith)
        requires
            pct <= 127,
            travel_limit <= 0xffff_ffffu32,
    ;
    let t = pct * travel_limit as u64 / 100;
    if t > u32::MAX as u64 {
        None
    } else {
        Some(t as u32)
    }
}

/// The position as a percentage of the travel limit, as published: 0 while unknown, at most 100.
pub fn position_percent(stepper: &Stepper) -> (r: u8)
    requires
        stepper@.wf(),
    ensures
        r == match stepper@.pos {
            Some(p) => percent_of(p as int, stepper@.travel_limit as int),
            None => 0,
        },
        r <= 100,
{
    match stepper.pos() {
        None => 0,
        Some(p) => {
            let limit = stepper.travel_limit() as u64;
            assert(p as u64 * 100 <= 0xffff_ffffu64 * 100) by (nonlinear_arith)
                requires
                    p <= 0xffff_ffffu32,
            ;
            let pct = p as u64 * 100 / limit;
            if pct > 100 {
                100
            } else {
                pct as u8
            }
        },
    }
}

/// Handles a command: builds the motion it asks for, or says why it is dropped. `SetBottom`
/// changes the travel limit of `stepper` and hands back the value to store.
pub fn dispatch(stepper: &mut Stepper, cmd: Command) -> (r: Dispatch)
    requires
        old(stepper)@.wf(),
    ensures
        final(stepper)@.wf(),
        (r.persist, r.feedback) == dispatch_spec(old(stepper)@, cmd),
        motion_ok(old(stepper)@, cmd, r.motion),
        match cmd {
            Command::SetBottom => match old(stepper)@.pos {
                Some(p) => final(stepper)@ == (StepperView {
                    travel_limit: bottom_of(p),
                    ..old(stepper)@
                }),
                None => final(stepper)@ == old(stepper)@,
            },
            _ => final(stepper)@ == old(stepper)@,
        },
{
    match cmd {
        Command::Home => {
            let (h, dir) = stepper.homing_move();
            Dispatch { motion: Motion::Homing(h, dir), persist: None, feedback: Feedback::Confirm }
        },
        Command::StartJog(d) => match stepper.continuous_jog(d) {
            Ok((j, dir)) => Dispatch {
                motion: Motion::Jog(j, dir),
                persist: None,
                feedback: Feedback::Nothing,
            },
            Err(_) => Dispatch {
                motion: Motion::Idle,
                persist: None,
                feedback: Feedback::Error(ErrorSeverity::Soft),
            },
        },
        Command::StopJog => Dispatch {
            motion: Motion::Idle,
            persist: None,
            feedback: Feedback::Nothing,
        },
        Command::SetBottom => match stepper.pos() {
            Some(p) => {
                let limit = if p == 0 {
                    1
                } else {
                    p
                };
                stepper.set_travel_limit(limit);
                Dispatch { motion: Motion::Idle, persist: Some(limit), feedback: Feedback::Nothing }
            },
            None => Dispatch {
                motion: Motion::Idle,
                persist: None,
                feedback: Feedback::Error(ErrorSeverity::Soft),
            },
        },
        Command::MoveToPos(pct) => {
            let planned: Result<(PlannedMove, Direction), StepperError> = match move_target(
                pct,
                stepper.travel_limit(),
            ) {
                None => Err(StepperError::MoveOutOfBounds),
                Some(t) => stepper.planned_move(t),
            };
            match planned {
                Ok((m, dir)) => Dispatch {
                    motion: Motion::Planned(m, dir),
                    persist: None,
                    feedback: Feedback::Nothing,
                },
                Err(_) => Dispatch {
                    motion: Motion::Idle,
                    persist: None,
                    feedback: Feedback::Error(ErrorSeverity::Soft),
                },
            }
        },
    }
}

/// Decides, from the command taken from the command signal before a jog step (if any), whether
/// the jog goes on. Any new command ends it; all but `StopJog` are handed back, to be run next.
pub fn jog_continues(taken: Option<Command>) -> (r: (bool, Option<Command>))
    ensures
        r == match taken {
            None => (true, None::<Command>),
            Some(Command::StopJog) => (false, None),
            Some(c) => (false, Some(c)),
        },
{
    match taken {
        None => (true, None),
        Some(Command::StopJog) => (false, None),
        Some(c) => (false, Some(c)),
    }
}

} // verus!
