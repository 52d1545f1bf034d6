//! Creating a new task from the command line: the arguments are checked
//! against the caches, new goals and tags are stored by the caller, and the
//! task is put together and turned into the row that the database stores.
use vstd::prelude::*;
use crate::cache::{NameCache, names_view, present_values};
use crate::cli::{DoCmd, DueArgs, GoalArgs, Mode, TagArgs};
use crate::errors::TaskError;
use crate::models::{Priority, Recur, State, Task, priority_label, state_label};
use crate::helpers::{due_fits, due_within_range, shorthand_duration, plus_seconds, parsed_moment};
use crate::time::{
    NANOS_PER_SECOND, Moment, valid_moment, shifted_moment, default_due, formatted_datetime,
    add_seconds, parse_datetime, format_datetime, local_now, DEFAULT_DUE,
};

verus! {

/// What a new task's due argument gives at time `now`: a known shorthand
/// counts from `now`, an unknown one is an error, a date as text is read,
/// and anything else leaves the due date open.
pub enum NewDue {
    At(Moment),
    Open,
    UnknownShorthand(Seq<char>),
    Refused,
}

/// The due date of a new task, in the terms of [`NewDue`].
pub open spec fn new_due(due: Option<DueArgs>, durations: Map<Seq<char>, i64>, now: Moment) -> NewDue {
    match due {
        Some(d) => match (d.due_short, d.due_datetime) {
            (Some(sh), None) => if durations.contains_key(sh@) {
                NewDue::At(plus_seconds(now, durations[sh@] as int))
            } else {
                NewDue::UnknownShorthand(sh@)
            },
            (None, Some(text)) => match parsed_moment(text@) {
                Some(t) => NewDue::At(t),
                None => NewDue::Refused,
            },
            _ => NewDue::Open,
        },
        None => NewDue::Open,
    }
}

/// The first of `names` that the cache does not hold, if any.
pub open spec fn first_unknown(cache: Map<Seq<char>, i32>, names: Seq<Seq<char>>) -> Option<Seq<char>>
    decreases names.len(),
{
    if names.len() == 0 {
        None
    } else if !cache.contains_key(names[0]) {
        Some(names[0])
    } else {
        first_unknown(cache, names.drop_first())
    }
}

/// The goal of a new task, once the arguments are checked.
#[derive(Debug)]
pub enum GoalStep {
    /// Settled without the database: the goal id, no goal, or the error.
    Known(Result<Option<i32>, TaskError>),
    /// A new goal to store; its id becomes the task's goal.
    Create(String),
}

/// The tags of a new task, once the arguments are checked.
#[derive(Debug)]
pub enum TagStep {
    /// Settled without the database: the tag ids, or the error.
    Known(Result<Vec<i32>, TaskError>),
    /// New tags to store; their ids become the task's tags.
    Create(Vec<String>),
}

/// A new task whose arguments are checked, waiting for new goals and tags to
/// be stored.
#[derive(Debug)]
pub struct NewTaskPlan {
    pub title: String,
    pub priority: Option<Priority>,
    pub due: Result<Option<Moment>, TaskError>,
    pub recur: Option<Recur>,
    pub at_time: Option<u32>,
    pub state: Option<State>,
    pub goal: GoalStep,
    pub tag: TagStep,
}

/// Whether `s` is the goal step for the goal argument `goal`: a defined goal
/// gives its id, an undefined one `InvalidGoal`, a new one is to be stored,
/// and no goal (or both kinds) gives none.
pub open spec fn goal_step_for(goal: Option<GoalArgs>, goals: Map<Seq<char>, i32>, s: GoalStep) -> bool {
    match goal {
        Some(g) => match (g.goal, g.new_goal) {
            (Some(name), None) => if goals.contains_key(name@) {
                s == GoalStep::Known(Ok(Some(goals[name@])))
            } else {
                s matches GoalStep::Known(Err(TaskError::InvalidGoal(n))) && n@ == name@
            },
            (None, Some(new_goal)) => s matches GoalStep::Create(n) && n@ == new_goal@,
            _ => s == GoalStep::Known(Ok(None)),
        },
        None => s == GoalStep::Known(Ok(None)),
    }
}

/// Whether `s` is the tag step for the tag argument `tag`: defined tags give
/// their ids, or `InvalidTag` for the first unknown one; new tags are to be
/// stored; no tags (or both kinds) give none.
pub open spec fn tag_step_for(tag: Option<TagArgs>, tags: Map<Seq<char>, i32>, s: TagStep) -> bool {
    match tag {
        Some(t) => match (t.tag, t.new_tag) {
            (Some(names), None) => match first_unknown(tags, names_view(names@)) {
                Some(n) => s matches TagStep::Known(Err(TaskError::InvalidTag(m))) && m@ == n,
                None => s matches TagStep::Known(Ok(ids)) && ids@ == present_values(
                    tags,
                    names_view(names@),
                ),
            },
            (None, Some(new_tags)) => s matches TagStep::Create(n) && names_view(n@) == names_view(
                new_tags@,
            ),
            _ => s matches TagStep::Known(Ok(ids)) && ids@.len() == 0,
        },
        None => s matches TagStep::Known(Ok(ids)) && ids@.len() == 0,
    }
}

/// Whether `r` is what checking the mode at time `now` against the caches gives.
pub open spec fn plan_for(
    mode: Mode,
    goals: Map<Seq<char>, i32>,
    tags: Map<Seq<char>, i32>,
    durations: Map<Seq<char>, i64>,
    now: Moment,
    r: Result<NewTaskPlan, TaskError>,
) -> bool {
    match mode {
        Mode::Do(DoCmd::New { title, priority, due, recur, state, goal, tag }) => {
            match new_due(due, durations, now) {
                NewDue::Refused => r matches Err(TaskError::ChronoParsing(_)),
                nd => r matches Ok(p) && p.title@ == title@ && p.priority == priority && p.state
                    == state && p.recur == (match recur {
                    Some(x) => x.recur,
                    None => None,
                }) && p.at_time == (match recur {
                    Some(x) => x.at_time,
                    None => None,
                }) && match nd {
                    NewDue::At(t) => p.due == Ok::<Option<Moment>, TaskError>(Some(t))
                        && valid_moment(t),
                    NewDue::Open => p.due == Ok::<Option<Moment>, TaskError>(None),
                    NewDue::UnknownShorthand(sh) => p.due matches Err(TaskError::InvalidDue(m))
                        && m@ == sh,
                    NewDue::Refused => false,
                } && goal_step_for(goal, goals, p.goal) && tag_step_for(tag, tags, p.tag)
            }
        },
        _ => r matches Err(TaskError::WrongWay(m)) && m@
            == "Mode did not match Do, and we are in - fn do_new()"@,
    }
}

/// The goal step for a goal argument.
pub fn goal_step(goal: &Option<GoalArgs>, goals: &NameCache<i32>) -> (r: GoalStep)
    ensures
        goal_step_for(*goal, goals@, r),
{
    match goal {
        Some(g) => match (&g.goal, &g.new_goal) {
            (Some(name), None) => match goals.get(name.as_str()) {
                Some(id) => GoalStep::Known(Ok(Some(id))),
                None => GoalStep::Known(Err(TaskError::InvalidGoal(name.clone()))),
            },
            (None, Some(new_goal)) => GoalStep::Create(new_goal.clone()),
            _ => GoalStep::Known(Ok(None)),
        },
        None => GoalStep::Known(Ok(None)),
    }
}

/// The ids of `names` where the cache holds them all, else the first name it lacks.
fn lookup_all(names: &Vec<String>, tags: &NameCache<i32>) -> (r: Result<Vec<i32>, String>)
    ensures
        match first_unknown(tags@, names_view(names@)) {
            Some(n) => r matches Err(m) && m@ == n,
            None => r matches Ok(ids) && ids@ == present_values(tags@, names_view(names@))
                && ids@.len() == names@.len(),
        },
{
    let mut ids: Vec<i32> = Vec::new();
    let n = names.len();
    let mut i: usize = 0;
    proof {
        assert(names_view(names@).skip(0) =~= names_view(names@));
    }
    while i < n
        invariant
            n == names@.len(),
            i <= n,
            first_unknown(tags@, names_view(names@)) == first_unknown(
                tags@,
                names_view(names@).skip(i as int),
            ),
            ids@ == present_values(tags@, names_view(names@.take(i as int))),
            ids@.len() == i,
        decreases n - i,
    {
        let ghost rest = names_view(names@).skip(i as int);
        assert(rest[0] == names@[i as int]@);
        assert(rest.drop_first() =~= names_view(names@).skip(i + 1));
        assert(names_view(names@.take(i + 1)).drop_last() =~= names_view(names@.take(i as int)));
        match tags.get(names[i].as_str()) {
            Some(id) => {
                ids.push(id);
            },
            None => {
                return Err(names[i].clone());
            },
        }
        i = i + 1;
    }
    proof {
        assert(names@.take(n as int) =~= names@);
        assert(names_view(names@).skip(n as int).len() == 0);
    }
    Ok(ids)
}

/// The tag step for a tag argument.
pub fn tag_step(tag: &Option<TagArgs>, tags: &NameCache<i32>) -> (r: TagStep)
    ensures
        tag_step_for(*tag, tags@, r),
{
    match tag {
        Some(t) => match (&t.tag, &t.new_tag) {
            (Some(names), None) => match lookup_all(names, tags) {
                Ok(ids) => TagStep::Known(Ok(ids)),
                Err(name) => TagStep::Known(Err(TaskError::InvalidTag(name))),
            },
            (None, Some(new_tags)) => {
                let mut out: Vec<String> = Vec::new();
                let n = new_tags.len();
                let mut i: usize = 0;
                while i < n
                    invariant
                        n == new_tags@.len(),
                        i <= n,
                        out@.len() == i,
                        forall|j: int| 0 <= j < i ==> out@[j]@ == new_tags@[j]@,
                    decreases n - i,
                {
                    out.push(new_tags[i].clone());
                    i = i + 1;
                }
                proof {
                    assert(names_view(out@) =~= names_view(new_tags@));
                }
                TagStep::Create(out)
            },
            _ => TagStep::Known(Ok(Vec::new())),
        },
        None => TagStep::Known(Ok(Vec::new())),
    }
}

/// The due date of a new task at time `now`; the outer error is the one
/// that stops the command at once (text that cannot be read), the inner one
/// is reported once the goal and the tags are settled.
fn new_task_due(due: &Option<DueArgs>, durations: &NameCache<i64>, now: Moment) -> (r: Result<
    Result<Option<Moment>, TaskError>,
    TaskError,
>)
    requires
        valid_moment(now),
        now.nanos < NANOS_PER_SECOND,
        due_within_range(*due, durations@, now),
    ensures
        match new_due(*due, durations@, now) {
            NewDue::At(t) => r matches Ok(Ok(Some(v))) && v == t && valid_moment(t),
            NewDue::Open => r matches Ok(Ok(None)),
            NewDue::UnknownShorthand(sh) => r matches Ok(Err(TaskError::InvalidDue(m))) && m@
                == sh,
            NewDue::Refused => r matches Err(TaskError::ChronoParsing(_)),
        },
{
    match due {
        Some(d) => match (&d.due_short, &d.due_datetime) {
            (Some(sh), None) => match durations.get(sh.as_str()) {
                Some(dur) => match add_seconds(now, dur) {
                    Some(t) => Ok(Ok(Some(t))),
                    // ruled out by `due_within_range`
                    None => Ok(Ok(None)),
                },
                None => Ok(Err(TaskError::InvalidDue(sh.clone()))),
            },
            (None, Some(text)) => match parse_datetime(text.as_str()) {
                Ok(t) => Ok(Ok(Some(t))),
                Err(e) => Err(TaskError::ChronoParsing(e)),
            },
            _ => Ok(Ok(None)),
        },
        None => Ok(Ok(None)),
    }
}

/// Whether the mode asks for a new task whose due shorthand, counted from
/// `now`, stays within chrono's range.
pub open spec fn new_task_fits(mode: Mode, durations: Map<Seq<char>, i64>, now: Moment) -> bool {
    match mode {
        Mode::Do(DoCmd::New { due, .. }) => due_within_range(due, durations, now),
        _ => true,
    }
}

/// Checks the arguments of a new task at time `now` against the caches of
/// goals, tags and due shorthands.
///
/// A mode other than `Do` is the error `WrongWay`; a due date as text that
/// cannot be read stops at once with `ChronoParsing`. Otherwise the plan
/// holds the title, the priority, the recurrence and the state as given,
/// the due date (or `InvalidDue` for an unknown shorthand), the goal (its
/// id, `InvalidGoal` for an unknown one, or a new one to store) and the
/// tags (their ids, `InvalidTag` for the first unknown one, or new ones to
/// store).
pub fn plan_new_task(
    mode: &Mode,
    goals: &NameCache<i32>,
    tags: &NameCache<i32>,
    durations: &NameCache<i64>,
    now: Moment,
) -> (r: Result<NewTaskPlan, TaskError>)
    requires
        valid_moment(now),
        now.nanos < NANOS_PER_SECOND,
        new_task_fits(*mode, durations@, now),
    ensures
        plan_for(*mode, goals@, tags@, durations@, now, r),
{
    match mode {
        Mode::Do(DoCmd::New { title, priority, due, recur, state, goal, tag }) => {
            let due_res = match new_task_due(due, durations, now) {
                Ok(d) => d,
                Err(e) => {
                    return Err(e);
                },
            };
            let (recur_type, recur_time) = match recur {
                Some(r) => (r.recur, r.at_time),
                None => (None, None),
            };
            let goal_res = goal_step(goal, goals);
            let tag_res = tag_step(tag, tags);
            Ok(
                NewTaskPlan {
                    title: title.clone(),
                    priority: *priority,
                    due: due_res,
                    recur: recur_type,
                    at_time: recur_time,
                    state: *state,
                    goal: goal_res,
                    tag: tag_res,
                },
            )
        },
        _ => Err(TaskError::WrongWay("Mode did not match Do, and we are in - fn do_new()".to_string())),
    }
}

/// Checks the arguments of a new task, counting a due shorthand from the
/// clock now: for the time read, `None` exactly where the shorthand leads out
/// of chrono's range (where chrono panics), otherwise what [`plan_new_task`]
/// gives for that time.
pub fn do_new(
    mode: &Mode,
    goals: &NameCache<i32>,
    tags: &NameCache<i32>,
    durations: &NameCache<i64>,
) -> (r: Option<Result<NewTaskPlan, TaskError>>)
    ensures
        exists|now: Moment|
            valid_moment(now) && now.nanos < NANOS_PER_SECOND && (r is None <==> !new_task_fits(
                *mode,
                durations@,
                now,
            )) && (r matches Some(res) ==> plan_for(*mode, goals@, tags@, durations@, now, res)),
        r is None ==> (*mode matches Mode::Do(DoCmd::New { due, .. }) && shorthand_duration(
            due,
            durations@,
        ) is Some),
        !(*mode matches Mode::Do(_)) ==> r matches Some(Err(TaskError::WrongWay(_))),
{
    let now = local_now();
    let fits = match mode {
        Mode::Do(DoCmd::New { due, .. }) => due_fits(due, durations, now),
        _ => true,
    };
    assert(fits == new_task_fits(*mode, durations@, now));
    if fits {
        let res = plan_new_task(mode, goals, tags, durations, now);
        let r = Some(res);
        assert(valid_moment(now) && now.nanos < NANOS_PER_SECOND && (r is None <==> !new_task_fits(*mode, durations@, now))
            && (r matches Some(res) ==> plan_for(*mode, goals@, tags@, durations@, now, res)));
        r
    } else {
        let r: Option<Result<NewTaskPlan, TaskError>> = None;
        assert(valid_moment(now) && now.nanos < NANOS_PER_SECOND && (r is None <==> !new_task_fits(*mode, durations@, now))
            && (r matches Some(res) ==> plan_for(*mode, goals@, tags@, durations@, now, res)));
        r
    }
}

/// Puts the task together once new goals and tags are stored: the tag
/// error comes first, then the goal error, then the due error; otherwise the
/// task with the planned fields, the goal and the tags given.
pub fn finish_new_task(
    plan: NewTaskPlan,
    goal: Result<Option<i32>, TaskError>,
    tags: Result<Vec<i32>, TaskError>,
) -> (r: Result<Task, TaskError>)
    ensures
        tags is Err ==> r == Err::<Task, TaskError>(tags->Err_0),
        tags is Ok && goal is Err ==> r == Err::<Task, TaskError>(goal->Err_0),
        tags is Ok && goal is Ok && plan.due is Err ==> r == Err::<Task, TaskError>(plan.due->Err_0),
        tags is Ok && goal is Ok && plan.due is Ok ==> (r matches Ok(t) && t.id == 0 && t.title@
            == plan.title@ && t.priority == (match plan.priority {
            Some(p) => p,
            None => Priority::Low,
        }) && t.due_by == (match plan.due->Ok_0 {
            Some(d) => d,
            None => default_due(),
        }) && t.recur == (match plan.recur {
            Some(x) => x,
            None => Recur::Never,
        }) && t.at_time == (match plan.at_time {
            Some(a) => a,
            None => 0u32,
        }) && t.custom_recur == 0 && t.state == (match plan.state {
            Some(s) => s,
            None => State::Pending,
        }) && t.goal == (match goal->Ok_0 {
            Some(g) => g,
            None => 0i32,
        }) && t.tag@ == tags->Ok_0@),
{
    let tag_ids = match tags {
        Ok(t) => t,
        Err(e) => {
            return Err(e);
        },
    };
    let goal_id = match goal {
        Ok(g) => g,
        Err(e) => {
            return Err(e);
        },
    };
    let due_by = match plan.due {
        Ok(d) => d,
        Err(e) => {
            return Err(e);
        },
    };
    Ok(
        Task::new(
            plan.title,
            plan.priority,
            due_by,
            plan.recur,
            plan.at_time,
            None,
            plan.state,
            goal_id,
            tag_ids,
        ),
    )
}

/// The row that stores a task in the `tasks` table.
#[derive(Debug)]
pub struct TaskRow {
    pub title: String,
    pub priority: String,
    pub due_by: String,
    pub does_recur: bool,
    pub state: String,
    pub goal_id: i32,
}

/// Whether a task comes back: it has a recurrence rule or a custom period.
pub open spec fn task_recurs(t: Task) -> bool {
    t.recur != Recur::Never || t.custom_recur != 0
}

/// The task, if the result holds one, with the row that stores it: its
/// title, the labels of its priority and state, its due date printed as
/// `%Y-%m-%d %H:%M:%S`, whether it recurs, and its goal.
pub fn in_task(res_task: Result<Task, TaskError>) -> (r: Result<(Task, TaskRow), TaskError>)
    requires
        res_task matches Ok(t) ==> valid_moment(t.due_by),
    ensures
        res_task is Err ==> r == Err::<(Task, TaskRow), TaskError>(res_task->Err_0),
        res_task matches Ok(t) ==> (r matches Ok((t2, row)) && t2 == t && row.title@ == t.title@
            && row.priority@ == priority_label(t.priority) && row.due_by@ == formatted_datetime(
            t.due_by.secs as int,
            t.due_by.nanos as int,
        ) && row.does_recur == task_recurs(t) && row.state@ == state_label(t.state)
            && row.goal_id == t.goal),
{
    let task = match res_task {
        Ok(t) => t,
        Err(e) => {
            return Err(e);
        },
    };
    let does_recur = match task.recur {
        Recur::Never => task.custom_recur != 0,
        _ => true,
    };
    let row = TaskRow {
        title: task.title.clone(),
        priority: task.priority.to_str(),
        due_by: format_datetime(task.due_by),
        does_recur,
        state: task.state.to_str(),
        goal_id: task.goal,
    };
    Ok((task, row))
}


/// The message of the error for a shorthand that the cache knows and the
/// table of durations lacks.
pub open spec fn disparity_message(shorthand: Seq<char>) -> Seq<char> {
    "Shorthand '"@ + shorthand + "' found in const but not in database."@
}

/// The duration of a shorthand that the cache knows, from the rows the
/// table of durations gives for it: the first row, or the error `Disparity`
/// where the table has none.
pub fn stored_duration(shorthand: &str, rows: &Vec<i64>) -> (r: Result<i64, TaskError>)
    ensures
        rows@.len() > 0 ==> r == Ok::<i64, TaskError>(rows@[0]),
        rows@.len() == 0 ==> (r matches Err(TaskError::Disparity(m)) && m@ == disparity_message(
            shorthand@,
        )),
{
    if rows.len() > 0 {
        Ok(rows[0])
    } else {
        let mut m = String::from_str("Shorthand '");
        m.append(shorthand);
        m.append("' found in const but not in database.");
        Err(TaskError::Disparity(m))
    }
}


/// How the local store reads a due argument: a shorthand takes precedence
/// over a date as text.
#[derive(Debug)]
pub enum LocalDue {
    Absent,
    Shorthand(String),
    Text(String),
}

/// Whether `r` is the local store's reading of the due argument: a
/// shorthand the cache does not know is `InvalidDue` at once, whatever text
/// comes with it; a known one is to be looked up; otherwise the text, or no
/// due date.
pub open spec fn local_due_for(
    due: Option<DueArgs>,
    durations: Map<Seq<char>, i64>,
    r: Result<LocalDue, TaskError>,
) -> bool {
    match due {
        Some(d) => match d.due_short {
            Some(s) => if durations.contains_key(s@) {
                r matches Ok(LocalDue::Shorthand(n)) && n@ == s@
            } else {
                r matches Err(TaskError::InvalidDue(n)) && n@ == s@
            },
            None => match d.due_datetime {
                Some(t) => r matches Ok(LocalDue::Text(n)) && n@ == t@,
                None => r matches Ok(LocalDue::Absent),
            },
        },
        None => r matches Ok(LocalDue::Absent),
    }
}

/// Reads a due argument the way the local store does, before anything is
/// written: an unknown shorthand is refused here.
pub fn check_local_due(due: &Option<DueArgs>, durations: &NameCache<i64>) -> (r: Result<
    LocalDue,
    TaskError,
>)
    ensures
        local_due_for(*due, durations@, r),
{
    match due {
        Some(d) => match &d.due_short {
            Some(s) => if durations.contains(s.as_str()) {
                Ok(LocalDue::Shorthand(s.clone()))
            } else {
                Err(TaskError::InvalidDue(s.clone()))
            },
            None => match &d.due_datetime {
                Some(t) => Ok(LocalDue::Text(t.clone())),
                None => Ok(LocalDue::Absent),
            },
        },
        None => Ok(LocalDue::Absent),
    }
}

/// Whether the due date of a shorthand, counted from `now` by the first
/// stored duration, stays within chrono's range.
pub open spec fn local_due_fits(step: LocalDue, stored: Seq<i64>, now: Moment) -> bool {
    (step is Shorthand && stored.len() > 0) ==> shifted_moment(now, stored[0] as int) is Some
}

/// Whether `r` is the due date the local store settles on at time `now`,
/// given the durations the table stores for a shorthand: the first one
/// counted from `now`, `Disparity` where the table has none; text is read;
/// no argument leaves the due date open.
pub open spec fn local_due_value_for(
    step: LocalDue,
    stored: Seq<i64>,
    now: Moment,
    r: Result<Option<Moment>, TaskError>,
) -> bool {
    match step {
        LocalDue::Absent => r == Ok::<Option<Moment>, TaskError>(None),
        LocalDue::Text(t) => match parsed_moment(t@) {
            Some(v) => r == Ok::<Option<Moment>, TaskError>(Some(v)) && valid_moment(v),
            None => r matches Err(TaskError::ChronoParsing(_)),
        },
        LocalDue::Shorthand(s) => if stored.len() == 0 {
            r matches Err(TaskError::Disparity(m)) && m@ == disparity_message(s@)
        } else {
            r == Ok::<Option<Moment>, TaskError>(Some(plus_seconds(now, stored[0] as int)))
                && valid_moment(plus_seconds(now, stored[0] as int))
        },
    }
}

/// The due date the local store settles on at time `now`.
pub fn local_due_at(step: &LocalDue, stored: &Vec<i64>, now: Moment) -> (r: Result<
    Option<Moment>,
    TaskError,
>)
    requires
        valid_moment(now),
        now.nanos < NANOS_PER_SECOND,
        local_due_fits(*step, stored@, now),
    ensures
        local_due_value_for(*step, stored@, now, r),
{
    match step {
        LocalDue::Absent => Ok(None),
        LocalDue::Text(t) => match parse_datetime(t.as_str()) {
            Ok(v) => Ok(Some(v)),
            Err(e) => Err(TaskError::ChronoParsing(e)),
        },
        LocalDue::Shorthand(s) => match stored_duration(s.as_str(), stored) {
            Ok(d) => match add_seconds(now, d) {
                Some(v) => Ok(Some(v)),
                // ruled out by `local_due_fits`
                None => Ok(None),
            },
            Err(e) => Err(e),
        },
    }
}

/// The due date the local store settles on, counted from the clock now:
/// for the time read, `None` exactly where the shorthand leads out of
/// chrono's range (where chrono panics), otherwise what [`local_due_at`]
/// gives for that time.
pub fn local_due_now(step: &LocalDue, stored: &Vec<i64>) -> (r: Option<
    Result<Option<Moment>, TaskError>,
>)
    ensures
        exists|now: Moment|
            valid_moment(now) && now.nanos < NANOS_PER_SECOND && (r is None <==> !local_due_fits(
                *step,
                stored@,
                now,
            )) && (
            r matches Some(res) ==> local_due_value_for(*step, stored@, now, res)),
        r is None ==> (step is Shorthand && stored@.len() > 0),
{
    let now = local_now();
    let fits = match step {
        LocalDue::Shorthand(_) => if stored.len() > 0 {
            add_seconds(now, stored[0]).is_some()
        } else {
            true
        },
        _ => true,
    };
    if fits {
        let r = Some(local_due_at(step, stored, now));
        assert(valid_moment(now) && now.nanos < NANOS_PER_SECOND && (r is None <==> !local_due_fits(*step, stored@, now))
            && (r matches Some(res) ==> local_due_value_for(*step, stored@, now, res)));
        r
    } else {
        let r: Option<Result<Option<Moment>, TaskError>> = None;
        assert(valid_moment(now) && now.nanos < NANOS_PER_SECOND && (r is None <==> !local_due_fits(*step, stored@, now))
            && (r matches Some(res) ==> local_due_value_for(*step, stored@, now, res)));
        r
    }
}

/// The command of a task mode: `WrongWay` for any mode other than `Do`.
pub fn new_task_command(mode: Mode) -> (r: Result<DoCmd, TaskError>)
    ensures
        match mode {
            Mode::Do(cmd) => r == Ok::<DoCmd, TaskError>(cmd),
            _ => r matches Err(TaskError::WrongWay(m)) && m@
                == "Mode did not match Do, and we are in - fn do_new()"@,
        },
{
    match mode {
        Mode::Do(cmd) => Ok(cmd),
        _ => Err(TaskError::WrongWay("Mode did not match Do, and we are in - fn do_new()".to_string())),
    }
}

} // verus!
