//! The command line as plain values: what the user asked for, before any
//! name is looked up or any date is read.
use vstd::prelude::*;
use crate::models::{Priority, Recur, State};

verus! {

/// A recurrence rule and the time of day (seconds after midnight) it fires at.
#[derive(Clone, Copy, Debug, PartialEq, Eq, Structural)]
pub struct Recurrence {
    pub recur: Option<Recur>,
    pub at_time: Option<u32>,
}

/// The due date: a predefined shorthand, or a date and time as text.
#[derive(Clone, Debug)]
pub struct DueArgs {
    pub due_short: Option<String>,
    pub due_datetime: Option<String>,
}

/// The goal: one already defined, or a new one to define.
#[derive(Clone, Debug)]
pub struct GoalArgs {
    pub goal: Option<String>,
    pub new_goal: Option<String>,
}

/// The tags: ones already defined, and new ones to define.
#[derive(Clone, Debug)]
pub struct TagArgs {
    pub tag: Option<Vec<String>>,
    pub new_tag: Option<Vec<String>>,
}

/// What to do with tasks.
#[derive(Clone, Debug)]
pub enum DoCmd {
    /// Create a new task.
    New {
        title: String,
        priority: Option<Priority>,
        due: Option<DueArgs>,
        recur: Option<Recurrence>,
        state: Option<State>,
        goal: Option<GoalArgs>,
        tag: Option<TagArgs>,
    },
}

/// How to look at tasks.
#[derive(Clone, Debug)]
pub enum ViewCmd {
    All,
    Search { keyword: String },
    History,
}

/// Tags to add or delete.
#[derive(Clone, Debug)]
pub enum TagCmd {
    Add { name: String },
    Delete { name: String },
}

/// Projects to add or delete.
#[derive(Clone, Debug)]
pub enum ProjectCmd {
    Add { name: String },
    Delete { name: String },
}

/// Rules to change.
#[derive(Clone, Debug)]
pub enum ChangeCmd {
    Tag(TagCmd),
    Project(ProjectCmd),
}

/// The mode the program runs in.
#[derive(Clone, Debug)]
pub enum Mode {
    Do(DoCmd),
    View(ViewCmd),
    Change(ChangeCmd),
}

} // verus!
