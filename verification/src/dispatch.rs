//! Which part of the program handles a command.
use vstd::prelude::*;
use crate::cli::{DoCmd, Mode, Recurrence};
use crate::errors::TaskError;

verus! {

/// What wakes the scheduler: an earlier schedule was added, or an alarm went off.
#[derive(Clone, Copy, Debug, PartialEq, Eq, Structural)]
pub enum Notif {
    NewEarlier,
    Alarm,
}

/// Whether a recurrence argument makes a task recurring: it gives a rule, a
/// time of day, or both.
pub open spec fn recurs(recur: Option<Recurrence>) -> bool {
    match recur {
        Some(r) => r.recur is Some || r.at_time is Some,
        None => false,
    }
}

/// Whether a recurrence argument makes a task recurring.
pub fn is_recur(recur: Option<Recurrence>) -> (r: bool)
    ensures
        r == recurs(recur),
{
    match recur {
        Some(r) => match (r.recur, r.at_time) {
            (Some(_), Some(_)) => true,
            (Some(_), None) => true,
            (None, Some(_)) => true,
            (None, None) => false,
        },
        None => false,
    }
}

/// Where a task command goes: recurring tasks to the scheduler, the others
/// to the task table at once.
#[derive(Clone, Debug)]
pub enum Route {
    Scheduled(DoCmd),
    Immediate(DoCmd),
}

/// Routes the mode: a new recurring task is scheduled, another new task is
/// stored at once, and any other mode is the error `Mysterious("IDK")`.
pub fn route(mode: Mode) -> (r: Result<Route, TaskError>)
    ensures
        match mode {
            Mode::Do(cmd) => match cmd {
                DoCmd::New { recur, .. } => if recurs(recur) {
                    r == Ok::<Route, TaskError>(Route::Scheduled(cmd))
                } else {
                    r == Ok::<Route, TaskError>(Route::Immediate(cmd))
                },
            },
            _ => r matches Err(TaskError::Mysterious(m)) && m@ == "IDK"@,
        },
{
    match mode {
        Mode::Do(cmd) => {
            let recurring = match &cmd {
                DoCmd::New { recur, .. } => is_recur(*recur),
            };
            if recurring {
                Ok(Route::Scheduled(cmd))
            } else {
                Ok(Route::Immediate(cmd))
            }
        },
        _ => Err(TaskError::Mysterious("IDK".to_string())),
    }
}

} // verus!
