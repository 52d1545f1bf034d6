//! The decisions of the helpers that fill in a new task: its due date, its
//! goal, its tags, its first state and its priority. Reading the clock and
//! writing to the database happen around these functions.
use vstd::prelude::*;
use crate::cache::{NameCache, retrieve_values, present_values, names_view};
use crate::cli::{DueArgs, GoalArgs, TagArgs};
use crate::errors::TaskError;
use crate::models::{Priority, State, priority_label, state_label};
use crate::time::{
    NANOS_PER_SECOND, Moment, local_default, valid_moment, shifted_moment, parsed_datetime,
    add_seconds, parse_datetime, utc_now, local_offset, local_default_due,
};

verus! {

/// The number of seconds that a due argument naming only a shorthand stands
/// for, where the cache knows the shorthand.
pub open spec fn shorthand_duration(due: Option<DueArgs>, durations: Map<Seq<char>, i64>) -> Option<
    i64,
> {
    match due {
        Some(d) => match (d.due_short, d.due_datetime) {
            (Some(sh), None) => if durations.contains_key(sh@) {
                Some(durations[sh@])
            } else {
                None
            },
            _ => None,
        },
        None => None,
    }
}

/// Whether the due date that a shorthand stands for, counted from `now`,
/// stays within chrono's range (chrono panics where it does not).
pub open spec fn due_within_range(due: Option<DueArgs>, durations: Map<Seq<char>, i64>, now: Moment) -> bool {
    match shorthand_duration(due, durations) {
        Some(d) => shifted_moment(now, d as int) is Some,
        None => true,
    }
}

/// Whether the due argument gives a date as text that chrono refuses.
pub open spec fn due_text_refused(due: Option<DueArgs>) -> bool {
    match due {
        Some(d) => match (d.due_short, d.due_datetime) {
            (None, Some(text)) => parsed_datetime(text@) is None,
            _ => false,
        },
        None => false,
    }
}

/// The moment `m` shifted by `d` seconds, without a range check.
pub open spec fn plus_seconds(m: Moment, d: int) -> Moment {
    Moment { secs: (m.secs + d) as i64, nanos: m.nanos }
}

/// The moment that chrono reads from a text, where it reads one.
pub open spec fn parsed_moment(text: Seq<char>) -> Option<Moment> {
    match parsed_datetime(text) {
        Some((secs, nanos)) => Some(Moment { secs: secs as i64, nanos: nanos as u32 }),
        None => None,
    }
}

/// The due date that the due helper settles on at time `now`: a known
/// shorthand counts from `now`, a date as text is read (and taken as UTC),
/// and everything else (an unknown shorthand, no argument) falls back to
/// `default`. `None` where the text is refused.
pub open spec fn helper_due(
    due: Option<DueArgs>,
    durations: Map<Seq<char>, i64>,
    now: Moment,
    default: Moment,
) -> Option<Moment> {
    match due {
        Some(d) => match (d.due_short, d.due_datetime) {
            (Some(sh), None) => if durations.contains_key(sh@) {
                Some(plus_seconds(now, durations[sh@] as int))
            } else {
                Some(default)
            },
            (None, Some(text)) => parsed_moment(text@),
            _ => Some(default),
        },
        None => Some(default),
    }
}

/// Whether a due date counted from `now` by the shorthand in `due` stays in range.
pub fn due_fits(due: &Option<DueArgs>, durations: &NameCache<i64>, now: Moment) -> (r: bool)
    requires
        now.nanos < NANOS_PER_SECOND,
    ensures
        r == due_within_range(*due, durations@, now),
{
    match due {
        Some(d) => match (&d.due_short, &d.due_datetime) {
            (Some(sh), None) => match durations.get(sh.as_str()) {
                Some(dur) => add_seconds(now, dur).is_some(),
                None => true,
            },
            _ => true,
        },
        None => true,
    }
}

/// The due date of a task at time `now`, as the due helper settles it, with
/// `default` where no due date is given; the error where the date text
/// cannot be read.
pub fn resolve_due(
    due: &Option<DueArgs>,
    durations: &NameCache<i64>,
    now: Moment,
    default: Moment,
) -> (r: Result<Moment, TaskError>)
    requires
        valid_moment(now),
        now.nanos < NANOS_PER_SECOND,
        due_within_range(*due, durations@, now),
    ensures
        r is Ok <==> helper_due(*due, durations@, now, default) is Some,
        r matches Ok(t) ==> helper_due(*due, durations@, now, default) == Some(t),
        r matches Err(e) ==> e is ChronoParsing,
{
    match due {
        Some(d) => match (&d.due_short, &d.due_datetime) {
            (Some(sh), None) => match durations.get(sh.as_str()) {
                Some(dur) => match add_seconds(now, dur) {
                    Some(t) => Ok(t),
                    // ruled out by `due_within_range`
                    None => Ok(default),
                },
                None => Ok(default),
            },
            (None, Some(text)) => match parse_datetime(text.as_str()) {
                Ok(t) => Ok(t),
                Err(e) => Err(TaskError::ChronoParsing(e)),
            },
            _ => Ok(default),
        },
        None => Ok(default),
    }
}

/// Whether `res` is what the due helper settles on at time `now` with the
/// default `default`: the due date where there is one, else the parse error.
pub open spec fn due_result_for(
    due: Option<DueArgs>,
    durations: Map<Seq<char>, i64>,
    now: Moment,
    default: Moment,
    res: Result<Moment, TaskError>,
) -> bool {
    match res {
        Ok(t) => helper_due(due, durations, now, default) == Some(t),
        Err(e) => helper_due(due, durations, now, default) is None && e is ChronoParsing,
    }
}

/// The due date of a task counted from the UTC clock now, as the due helper
/// settles it, with 3141-05-09 02:06:53 in the machine's time zone as the
/// default: for the time and zone read, `None` exactly where a shorthand
/// leads out of chrono's range (where chrono panics), otherwise what
/// [`resolve_due`] gives.
pub fn resolve_due_now(due: &Option<DueArgs>, durations: &NameCache<i64>) -> (r: Option<
    Result<Moment, TaskError>,
>)
    ensures
        exists|now: Moment, offset: int|
            #![trigger valid_moment(now), local_default(offset)]
            valid_moment(now) && now.nanos < NANOS_PER_SECOND && -86400 < offset < 86400 && (r is None
                <==> !due_within_range(*due, durations@, now)) && (r matches Some(res)
                ==> due_result_for(*due, durations@, now, local_default(offset), res)),
        r is None ==> shorthand_duration(*due, durations@) is Some,
        due_text_refused(*due) ==> r matches Some(Err(_)),
{
    let now = utc_now();
    let offset = local_offset();
    let default = local_default_due(offset);
    if due_fits(due, durations, now) {
        let res = resolve_due(due, durations, now, default);
        let r = Some(res);
        assert(valid_moment(now) && now.nanos < NANOS_PER_SECOND && -86400 < (offset as int) < 86400 && (
        r is None <==> !due_within_range(*due, durations@, now)) && (r matches Some(res)
            ==> due_result_for(*due, durations@, now, local_default(offset as int), res)));
        r
    } else {
        let r: Option<Result<Moment, TaskError>> = None;
        assert(valid_moment(now) && now.nanos < NANOS_PER_SECOND && -86400 < (offset as int) < 86400 && (
        r is None <==> !due_within_range(*due, durations@, now)) && (r matches Some(res)
            ==> due_result_for(*due, durations@, now, local_default(offset as int), res)));
        r
    }
}

/// What the goal helper does with the goal argument.
#[derive(Debug)]
pub enum GoalPlan {
    /// The goal is known: this is its id (0 for no goal).
    Id(i32),
    /// The goal named is not defined; the task gets no goal.
    Missing(String),
    /// A new goal to save; the task gets the id it is saved under.
    Create(String),
}

/// The goal id a plan settles on without saving: a missing goal gives 0.
pub open spec fn planned_goal_id(plan: GoalPlan) -> Option<i32> {
    match plan {
        GoalPlan::Id(i) => Some(i),
        GoalPlan::Missing(_) => Some(0i32),
        GoalPlan::Create(_) => None,
    }
}

impl GoalPlan {
    /// The goal id, where no saving is needed to know it.
    pub fn goal_id(&self) -> (r: Option<i32>)
        ensures
            r == planned_goal_id(*self),
    {
        match self {
            GoalPlan::Id(i) => Some(*i),
            GoalPlan::Missing(_) => Some(0),
            GoalPlan::Create(_) => None,
        }
    }
}

/// Whether `r` is what the goal helper does with the goal argument: a
/// defined goal gives its id, an undefined one is reported missing, a new
/// one is to be saved, and without a goal (or with both kinds) the id is 0.
pub open spec fn goal_plan_for(goal: Option<GoalArgs>, goals: Map<Seq<char>, i32>, r: GoalPlan) -> bool {
    match goal {
        Some(g) => match (g.goal, g.new_goal) {
            (Some(name), None) => if goals.contains_key(name@) {
                r == GoalPlan::Id(goals[name@])
            } else {
                r matches GoalPlan::Missing(n) && n@ == name@
            },
            (None, Some(new_goal)) => r matches GoalPlan::Create(n) && n@ == new_goal@,
            _ => r == GoalPlan::Id(0i32),
        },
        None => r == GoalPlan::Id(0i32),
    }
}

/// What the goal helper does with the goal argument: a defined goal gives
/// its id, an undefined one is reported missing, a new one is to be saved,
/// and without a goal (or with both kinds) the id is 0.
pub fn plan_goal(goal: &Option<GoalArgs>, goals: &NameCache<i32>) -> (r: GoalPlan)
    ensures
        goal_plan_for(*goal, goals@, r),
{
    match goal {
        Some(g) => match (&g.goal, &g.new_goal) {
            (Some(name), None) => match goals.get(name.as_str()) {
                Some(id) => GoalPlan::Id(id),
                None => GoalPlan::Missing(name.clone()),
            },
            (None, Some(new_goal)) => GoalPlan::Create(new_goal.clone()),
            _ => GoalPlan::Id(0),
        },
        None => GoalPlan::Id(0),
    }
}

/// The goal id once a new goal has been saved: the id it was stored
/// under; where a goal of that name already existed, saving is ignored and
/// the task gets no goal (0).
pub fn saved_goal_id(stored: Option<i32>) -> (r: i32)
    ensures
        r == (match stored {
            Some(i) => i,
            None => 0i32,
        }),
{
    match stored {
        Some(i) => i,
        None => 0,
    }
}

/// What the tag helper does with the tag argument.
#[derive(Debug)]
pub enum TagPlan {
    /// The tag ids are known; `[0]` stands for no tags.
    Ids(Vec<i32>),
    /// New tags to save first; then the ids they are saved under, followed
    /// by the ids of the defined tags in `known`, found in the refreshed cache.
    Save { new_tags: Vec<String>, known: Option<Vec<String>> },
}

/// The names of an optional list of strings, each taken as text.
pub open spec fn opt_names(names: Option<Vec<String>>) -> Option<Seq<Seq<char>>> {
    match names {
        Some(v) => Some(names_view(v@)),
        None => None,
    }
}

/// Whether `r` is what the tag helper does with the tag argument: defined
/// tags give the ids the cache holds for them (unknown names are skipped),
/// new tags are to be saved (with the defined ones looked up afterwards),
/// and without tags the ids are the sentinel `[0]`.
pub open spec fn tag_plan_for(tags: Option<TagArgs>, cache: Map<Seq<char>, i32>, r: TagPlan) -> bool {
    match tags {
        Some(t) => match (t.tag, t.new_tag) {
            (Some(names), None) => r matches TagPlan::Ids(ids) && ids@ == present_values(
                cache,
                names_view(names@),
            ),
            (None, Some(new_tags)) => r matches TagPlan::Save { new_tags: n, known: k }
                && names_view(n@) == names_view(new_tags@) && k is None,
            (Some(names), Some(new_tags)) => r matches TagPlan::Save { new_tags: n, known: k }
                && names_view(n@) == names_view(new_tags@) && opt_names(k) == Some(
                names_view(names@),
            ),
            (None, None) => r matches TagPlan::Ids(ids) && ids@ == seq![0i32],
        },
        None => r matches TagPlan::Ids(ids) && ids@ == seq![0i32],
    }
}

/// What the tag helper does with the tag argument: defined tags give the
/// ids the cache holds for them (unknown names are skipped), new tags are to
/// be saved, and without tags the ids are the sentinel `[0]`.
pub fn plan_tags(tags: &Option<TagArgs>, cache: &NameCache<i32>) -> (r: TagPlan)
    ensures
        tag_plan_for(*tags, cache@, r),
{
    match tags {
        Some(t) => match (&t.tag, &t.new_tag) {
            (Some(names), None) => TagPlan::Ids(copied_values(cache, names)),
            (None, Some(new_tags)) => TagPlan::Save { new_tags: clone_names(new_tags), known: None },
            (Some(names), Some(new_tags)) => TagPlan::Save {
                new_tags: clone_names(new_tags),
                known: Some(clone_names(names)),
            },
            (None, None) => TagPlan::Ids(no_tag_ids()),
        },
        None => TagPlan::Ids(no_tag_ids()),
    }
}

/// The sentinel `[0]` that stands for no tags.
fn no_tag_ids() -> (r: Vec<i32>)
    ensures
        r@ == seq![0i32],
{
    let v = vec![0];
    assert(v@ =~= seq![0i32]);
    v
}

/// The ids of the tags once the new ones are saved: the ids they were saved
/// under, followed by the ids the refreshed cache holds for the defined ones.
pub fn finish_tags(saved: Vec<i32>, known: &Option<Vec<String>>, cache: &NameCache<i32>) -> (r: Vec<
    i32,
>)
    ensures
        r@ == saved@ + (match opt_names(*known) {
            Some(names) => present_values(cache@, names),
            None => Seq::<i32>::empty(),
        }),
{
    let mut out = saved;
    match known {
        Some(names) => {
            let mut found = copied_values(cache, names);
            out.append(&mut found);
        },
        None => {},
    }
    out
}

/// The ids that the cache holds for `names`, copied out, in order.
fn copied_values(cache: &NameCache<i32>, names: &Vec<String>) -> (r: Vec<i32>)
    ensures
        r@ == present_values(cache@, names_view(names@)),
{
    let refs = retrieve_values(cache, names.as_slice());
    let mut out: Vec<i32> = Vec::new();
    let n = refs.len();
    let mut i: usize = 0;
    while i < n
        invariant
            n == refs@.len(),
            i <= n,
            out@.len() == i,
            forall|j: int| 0 <= j < i ==> out@[j] == *refs@[j],
        decreases n - i,
    {
        out.push(*refs[i]);
        i = i + 1;
    }
    proof {
        assert(out@ =~= present_values(cache@, names_view(names@)));
    }
    out
}

/// A copy of a list of names.
fn clone_names(names: &Vec<String>) -> (r: Vec<String>)
    ensures
        names_view(r@) == names_view(names@),
{
    let mut out: Vec<String> = Vec::new();
    let n = names.len();
    let mut i: usize = 0;
    while i < n
        invariant
            n == names@.len(),
            i <= n,
            out@.len() == i,
            forall|j: int| 0 <= j < i ==> out@[j]@ == names@[j]@,
        decreases n - i,
    {
        out.push(names[i].clone());
        i = i + 1;
    }
    proof {
        assert(names_view(out@) =~= names_view(names@));
    }
    out
}

/// The state a task starts in, as its label: the one given, else pending.
pub fn initial_state(state: Option<State>) -> (r: String)
    ensures
        r@ == state_label(match state {
            Some(s) => s,
            None => State::Pending,
        }),
{
    match state {
        Some(s) => s.to_str(),
        None => State::Pending.to_str(),
    }
}

/// The priority of a task, as its label: the one given, else low.
pub fn initial_priority(priority: Option<Priority>) -> (r: String)
    ensures
        r@ == priority_label(match priority {
            Some(p) => p,
            None => Priority::Low,
        }),
{
    match priority {
        Some(p) => p.to_str(),
        None => Priority::Low.to_str(),
    }
}

} // verus!
