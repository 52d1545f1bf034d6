use vstd::prelude::*;
use crate::time::{DEFAULT_DUE, Moment, default_due};

verus! {

/// How often a task comes back.
#[derive(Clone, Copy, Debug, PartialEq, Eq, Structural)]
pub enum Recur {
    Daily,
    Weekly,
    Monthly,
    Yearly,
    Never,
}

/// How urgent a task is.
#[derive(Clone, Copy, Debug, PartialEq, Eq, Structural)]
pub enum Priority {
    Low,
    Medium,
    High,
}

/// Where a task stands in its life cycle.
#[derive(Clone, Copy, Debug, PartialEq, Eq, Structural)]
pub enum State {
    Scheduled,
    Pending,
    Doing,
    Paused,
    Completed,
}

/// The label of a priority, as the `priority_level` type of the database spells it.
pub open spec fn priority_label(p: Priority) -> Seq<char> {
    match p {
        Priority::Low => "Low"@,
        Priority::Medium => "Medium"@,
        Priority::High => "High"@,
    }
}

/// The label of a state, as the `task_state` type of the database spells it.
pub open spec fn state_label(s: State) -> Seq<char> {
    match s {
        State::Scheduled => "Scheduled"@,
        State::Pending => "Pending"@,
        State::Doing => "Doing"@,
        State::Paused => "Paused"@,
        State::Completed => "Completed"@,
    }
}

/// Each priority has a label of its own, so the label tells the priority.
pub proof fn law_priority_labels_distinct(a: Priority, b: Priority)
    ensures
        priority_label(a) == priority_label(b) ==> a == b,
{
    reveal_strlit("Low");
    reveal_strlit("Medium");
    reveal_strlit("High");
    if a != b {
        assert(priority_label(a)[0] != priority_label(b)[0] || priority_label(a).len()
            != priority_label(b).len());
    }
}

/// Each state has a label of its own, so the label tells the state.
pub proof fn law_state_labels_distinct(a: State, b: State)
    ensures
        state_label(a) == state_label(b) ==> a == b,
{
    reveal_strlit("Scheduled");
    reveal_strlit("Pending");
    reveal_strlit("Doing");
    reveal_strlit("Paused");
    reveal_strlit("Completed");
    if a != b {
        assert(state_label(a)[0] != state_label(b)[0] || state_label(a).len()
            != state_label(b).len() || state_label(a)[1] != state_label(b)[1]);
    }
}

impl Priority {
    pub fn to_str(&self) -> (r: String)
        ensures
            r@ == priority_label(*self),
    {
        match self {
            Priority::High => "High".to_string(),
            Priority::Medium => "Medium".to_string(),
            Priority::Low => "Low".to_string(),
        }
    }
}

impl State {
    pub fn to_str(&self) -> (r: String)
        ensures
            r@ == state_label(*self),
    {
        match self {
            State::Scheduled => "Scheduled".to_string(),
            State::Pending => "Pending".to_string(),
            State::Doing => "Doing".to_string(),
            State::Paused => "Paused".to_string(),
            State::Completed => "Completed".to_string(),
        }
    }
}

/// A task as the program holds it. Its due date is a moment on the naive
/// time line, `at_time` is seconds after midnight and `custom_recur` a
/// period in seconds.
#[derive(Debug)]
pub struct Task {
    pub id: i32,
    pub title: String,
    pub priority: Priority,
    pub due_by: Moment,
    pub recur: Recur,
    pub at_time: u32,
    pub custom_recur: i64,
    pub state: State,
    /// Id of the goal in the database and the cache; 0 for none.
    pub goal: i32,
    /// Ids of the tags in the database and the cache.
    pub tag: Vec<i32>,
}

/// A change of state of a task, as the `task_events` table records it.
#[derive(Clone, Copy, Debug)]
pub struct TaskEvents {
    pub id: i32,
    pub task_id: i32,
    pub state: State,
    pub timestamp: Moment,
}

impl Task {
    /// A task that is not stored yet (its id is 0), with every field that is
    /// not given set to its default: low priority, the default due date, no
    /// recurrence at midnight, pending, no goal.
    pub fn new(
        title: String,
        priority: Option<Priority>,
        due_by: Option<Moment>,
        recur: Option<Recur>,
        at_time: Option<u32>,
        custom_recur: Option<i64>,
        state: Option<State>,
        goal: Option<i32>,
        tag: Vec<i32>,
    ) -> (r: Task)
        ensures
            r.id == 0,
            r.title@ == title@,
            r.priority == (match priority { Some(p) => p, None => Priority::Low }),
            r.due_by == (match due_by { Some(d) => d, None => default_due() }),
            r.recur == (match recur { Some(x) => x, None => Recur::Never }),
            r.at_time == (match at_time { Some(a) => a, None => 0u32 }),
            r.custom_recur == (match custom_recur { Some(c) => c, None => 0i64 }),
            r.state == (match state { Some(s) => s, None => State::Pending }),
            r.goal == (match goal { Some(g) => g, None => 0i32 }),
            r.tag@ == tag@,
    {
        Task {
            id: 0,
            title,
            priority: match priority {
                Some(p) => p,
                None => Priority::Low,
            },
            due_by: match due_by {
                Some(d) => d,
                None => Moment { secs: DEFAULT_DUE, nanos: 0 },
            },
            recur: match recur {
                Some(x) => x,
                None => Recur::Never,
            },
            at_time: match at_time {
                Some(a) => a,
                None => 0,
            },
            custom_recur: match custom_recur {
                Some(c) => c,
                None => 0,
            },
            state: match state {
                Some(s) => s,
                None => State::Pending,
            },
            goal: match goal {
                Some(g) => g,
                None => 0,
            },
            tag,
        }
    }
}

} // verus!
