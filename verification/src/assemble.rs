//! The assembler: the messages that the helpers send about a task, the
//! table updates they call for, and the verdict over how the updates went.
use vstd::prelude::*;
use crate::errors::TaskError;
use crate::time::{Moment, valid_moment, utc_display, display_utc};

verus! {

/// A message from a helper to the assembler about one task.
#[derive(Clone, Debug)]
pub enum Msg {
    Goal { task_id: i32, goal_id: i32 },
    Tag { task_id: i32, tag_ids: Vec<i32> },
    /// The due date as a UTC moment.
    Due { task_id: i32, parsed_due: Moment },
    State { task_id: i32, state: String },
    Priority { task_id: i32, priority: String },
    /// No more messages will come.
    Clockout,
}

/// An update of the database that a message calls for.
#[derive(Clone, Debug)]
pub enum Statement {
    /// `UPDATE tasks SET goal_id = goal_id WHERE id = task_id`
    SetGoal { task_id: i32, goal_id: i32 },
    /// `INSERT INTO task_tags` one row per tag id, skipping rows already there.
    AttachTags { task_id: i32, tag_ids: Vec<i32> },
    /// `UPDATE tasks SET due_by = due::timestamptz WHERE id = task_id`
    SetDue { task_id: i32, due: String },
    /// `UPDATE tasks SET state = state::task_state WHERE id = task_id`
    SetState { task_id: i32, state: String },
    /// `UPDATE tasks SET priority = priority::priority_level WHERE id = task_id`
    SetPriority { task_id: i32, priority: String },
}

/// Whether the tag ids are the sentinel `[0]` that stands for no tags.
pub open spec fn no_tags(tag_ids: Seq<i32>) -> bool {
    tag_ids == seq![0i32]
}

/// Whether a message can be processed: chrono must be able to hold a due date.
pub open spec fn msg_ok(m: Msg) -> bool {
    m matches Msg::Due { parsed_due, .. } ==> valid_moment(parsed_due)
}

/// Whether `r` is the update that message `m` calls for: goal 0 and the tag
/// sentinel `[0]` call for none, nor does the closing message; every other
/// message sets its field of the task (tags are attached).
pub open spec fn statement_for(m: Msg, r: Option<Statement>) -> bool {
    match m {
        Msg::Goal { task_id, goal_id } => if goal_id != 0 {
            r == Some(Statement::SetGoal { task_id, goal_id })
        } else {
            r is None
        },
        Msg::Tag { task_id, tag_ids } => if !no_tags(tag_ids@) {
            r matches Some(Statement::AttachTags { task_id: t, tag_ids: ids }) && t == task_id
                && ids@ == tag_ids@
        } else {
            r is None
        },
        Msg::Due { task_id, parsed_due } => r matches Some(Statement::SetDue { task_id: t, due })
            && t == task_id && due@ == utc_display(
            parsed_due.secs as int,
            parsed_due.nanos as int,
        ),
        Msg::State { task_id, state } => r matches Some(Statement::SetState { task_id: t, state: s })
            && t == task_id && s@ == state@,
        Msg::Priority { task_id, priority } => r matches Some(
            Statement::SetPriority { task_id: t, priority: p },
        ) && t == task_id && p@ == priority@,
        Msg::Clockout => r is None,
    }
}

/// Whether the tag ids are exactly `[0]`.
fn is_no_tags(tag_ids: &Vec<i32>) -> (r: bool)
    ensures
        r == no_tags(tag_ids@),
{
    if tag_ids.len() == 1 && tag_ids[0] == 0 {
        assert(tag_ids@ =~= seq![0i32]);
        true
    } else {
        false
    }
}

impl Msg {
    /// The update of the database that this message calls for, if any.
    pub fn process(&self) -> (r: Option<Statement>)
        requires
            msg_ok(*self),
        ensures
            statement_for(*self, r),
    {
        match self {
            Msg::Goal { task_id, goal_id } => {
                if *goal_id != 0 {
                    Some(Statement::SetGoal { task_id: *task_id, goal_id: *goal_id })
                } else {
                    None
                }
            },
            Msg::Tag { task_id, tag_ids } => {
                if !is_no_tags(tag_ids) {
                    Some(Statement::AttachTags { task_id: *task_id, tag_ids: tag_ids.clone() })
                } else {
                    None
                }
            },
            Msg::Due { task_id, parsed_due } => Some(
                Statement::SetDue { task_id: *task_id, due: display_utc(*parsed_due) },
            ),
            Msg::State { task_id, state } => Some(
                Statement::SetState { task_id: *task_id, state: state.clone() },
            ),
            Msg::Priority { task_id, priority } => Some(
                Statement::SetPriority { task_id: *task_id, priority: priority.clone() },
            ),
            Msg::Clockout => None,
        }
    }
}

/// Whether every recorded update went through.
pub open spec fn all_succeeded(outcomes: Seq<bool>) -> bool {
    forall|i: int| 0 <= i < outcomes.len() ==> outcomes[i]
}

/// The error the assembler ends with when an update failed.
pub open spec fn assembler_failure_message() -> Seq<char> {
    "assembler couldnt process massages without panicking :("@
}

/// What the assembler has seen: whether each update it ran went through,
/// and whether it still takes messages.
pub struct Assembler {
    outcomes: Vec<bool>,
    open: bool,
}

impl View for Assembler {
    type V = (Seq<bool>, bool);

    closed spec fn view(&self) -> (Seq<bool>, bool) {
        (self.outcomes@, self.open)
    }
}

impl Assembler {
    /// An assembler that has seen nothing and takes messages.
    pub fn new() -> (r: Self)
        ensures
            r@ == (Seq::<bool>::empty(), true),
    {
        Assembler { outcomes: Vec::new(), open: true }
    }

    /// Takes a message: the closing message stops the assembler from taking
    /// more; every message gives the update it calls for.
    pub fn receive(&mut self, msg: &Msg) -> (r: Option<Statement>)
        requires
            msg_ok(*msg),
        ensures
            statement_for(*msg, r),
            final(self)@.0 == old(self)@.0,
            final(self)@.1 == (old(self)@.1 && !(*msg matches Msg::Clockout)),
    {
        if let Msg::Clockout = msg {
            self.open = false;
        }
        msg.process()
    }

    /// Records whether an update went through.
    pub fn record(&mut self, succeeded: bool)
        ensures
            final(self)@ == (old(self)@.0.push(succeeded), old(self)@.1),
    {
        self.outcomes.push(succeeded);
    }

    /// Whether the assembler still takes messages.
    pub fn is_open(&self) -> (r: bool)
        ensures
            r == self@.1,
    {
        self.open
    }

    /// Success where every recorded update succeeded, else the error
    /// `Mysterious`.
    pub fn verdict(&self) -> (r: Result<(), TaskError>)
        ensures
            r is Ok <==> all_succeeded(self@.0),
            r matches Err(e) ==> (e matches TaskError::Mysterious(m) && m@
                == assembler_failure_message()),
    {
        let mut ok = true;
        let n = self.outcomes.len();
        let mut i: usize = 0;
        while i < n
            invariant
                n == self.outcomes@.len(),
                i <= n,
                ok == all_succeeded(self.outcomes@.take(i as int)),
            decreases n - i,
        {
            if !self.outcomes[i] {
                ok = false;
            }
            proof {
                let s = self.outcomes@.take(i + 1);
                let p = self.outcomes@.take(i as int);
                assert(s.drop_last() =~= p);
                if all_succeeded(p) && self.outcomes@[i as int] {
                    assert forall|j: int| 0 <= j < s.len() implies s[j] by {
                        if j < i {
                            assert(s[j] == p[j]);
                        }
                    }
                }
                if all_succeeded(s) {
                    assert(s[i as int]);
                    assert forall|j: int| 0 <= j < p.len() implies p[j] by {
                        assert(s[j] == p[j]);
                    }
                }
            }
            i = i + 1;
        }
        proof {
            assert(self.outcomes@.take(n as int) =~= self.outcomes@);
        }
        if ok {
            Ok(())
        } else {
            Err(TaskError::Mysterious("assembler couldnt process massages without panicking :(".to_string()))
        }
    }
}

} // verus!
