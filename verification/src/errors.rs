//! The errors of the task tracker.
use vstd::prelude::*;

verus! {

/// What can go wrong while a task is created or stored. Failures of the
/// database, of files and of spawned work come in as their message.
#[derive(Debug)]
pub enum TaskError {
    ChronoParsing(chrono::ParseError),
    ChronoOutOfRange(String),
    ChronoMonth(String),
    ChronoWeekday(String),
    Poisoned(String),
    Sqlx(String),
    FileParseFailed(String),
    JoinError(String),
    InvalidGoal(String),
    InvalidTag(String),
    InvalidDue(String),
    WrongWay(String),
    Disparity(String),
    Mysterious(String),
}

} // verus!
