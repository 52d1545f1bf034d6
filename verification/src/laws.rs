//! Properties that tie several parts of the task tracker together.
use vstd::prelude::*;
use crate::assemble::{Msg, Statement, statement_for, all_succeeded};
use crate::cli::{DoCmd, DueArgs, GoalArgs, Mode, Recurrence, TagArgs};
use crate::dispatch::recurs;
use crate::models::{Priority, State};
use crate::helpers::{
    GoalPlan, TagPlan, goal_plan_for, tag_plan_for, helper_due, planned_goal_id, due_within_range,
    opt_names,
};
use crate::cache::names_view;
use crate::new_task::{
    GoalStep, LocalDue, NewDue, NewTaskPlan, TagStep, goal_step_for, local_due_for, new_due,
    new_task_fits, plan_for, tag_step_for,
};
use crate::errors::TaskError;
use crate::time::{Moment, parsed_datetime, utc_display, NANOS_PER_SECOND, valid_moment};
use crate::cache::present_values;
use crate::models::{Recur, Task, priority_label, state_label};
use crate::new_task::{local_due_value_for, task_recurs, disparity_message};

verus! {

/// Whether a tag argument names no tags at all.
pub open spec fn tags_absent(tags: Option<TagArgs>) -> bool {
    match tags {
        Some(t) => t.tag is None && t.new_tag is None,
        None => true,
    }
}

/// A task created without tags gets no tags attached: the tag helper settles
/// on the sentinel ids, and the assembler runs no update for them.
pub proof fn law_no_tags_attach_nothing(
    tags: Option<TagArgs>,
    cache: Map<Seq<char>, i32>,
    plan: TagPlan,
    task_id: i32,
    sent: Vec<i32>,
    update: Option<Statement>,
)
    requires
        tags_absent(tags),
        tag_plan_for(tags, cache, plan),
        plan matches TagPlan::Ids(ids) && sent@ == ids@,
        statement_for(Msg::Tag { task_id, tag_ids: sent }, update),
    ensures
        update is None,
{
}

/// A task whose goal argument names no goal, or a goal that is not defined,
/// gets no goal: the goal helper settles on id 0, and the assembler runs no
/// update for it.
pub proof fn law_no_goal_sets_nothing(
    goal: Option<GoalArgs>,
    goals: Map<Seq<char>, i32>,
    plan: GoalPlan,
    task_id: i32,
    update: Option<Statement>,
)
    requires
        goal_plan_for(goal, goals, plan),
        planned_goal_id(plan) is Some,
        match goal {
            Some(g) => !(g.goal matches Some(name) && goals.contains_key(name@)),
            None => true,
        },
        statement_for(
            Msg::Goal {
                task_id,
                goal_id: planned_goal_id(plan)->0,
            },
            update,
        ),
    ensures
        update is None,
{
}

/// The due helper and the creation of a new task agree on every due date
/// that both settle: a known shorthand and a date as text give the same
/// moment, text refused is refused by both, and where a new task leaves the
/// due date open or names an unknown shorthand the helper falls back to its
/// default.
pub proof fn law_due_paths_agree(
    due: Option<DueArgs>,
    durations: Map<Seq<char>, i64>,
    now: Moment,
    default: Moment,
)
    ensures
        new_due(due, durations, now) matches NewDue::At(t) ==> helper_due(
            due,
            durations,
            now,
            default,
        ) == Some(t),
        new_due(due, durations, now) is Refused <==> helper_due(due, durations, now, default) is None,
        (new_due(due, durations, now) is Open || new_due(due, durations, now) is UnknownShorthand)
            ==> helper_due(due, durations, now, default) == Some(default),
{
}

/// Once an update has failed, the assembler's verdict stays a failure
/// whatever it records afterwards; while every update goes through, it stays
/// a success.
pub proof fn law_failure_is_final(outcomes: Seq<bool>, later: Seq<bool>)
    ensures
        !all_succeeded(outcomes) ==> !all_succeeded(outcomes + later),
        all_succeeded(outcomes) && all_succeeded(later) ==> all_succeeded(outcomes + later),
{
    let s = outcomes + later;
    if !all_succeeded(outcomes) {
        let i = choose|i: int| 0 <= i < outcomes.len() && !outcomes[i];
        assert(s[i] == outcomes[i]);
    }
    if all_succeeded(outcomes) && all_succeeded(later) {
        assert forall|i: int| 0 <= i < s.len() implies s[i] by {
            if i < outcomes.len() {
                assert(s[i] == outcomes[i]);
            } else {
                assert(s[i] == later[i - outcomes.len()]);
            }
        }
    }
}

/// A due argument with neither field set.
pub open spec fn empty_due() -> DueArgs {
    DueArgs { due_short: None, due_datetime: None }
}

/// A goal argument with neither field set.
pub open spec fn empty_goal() -> GoalArgs {
    GoalArgs { goal: None, new_goal: None }
}

/// A tag argument with neither field set.
pub open spec fn empty_tags() -> TagArgs {
    TagArgs { tag: None, new_tag: None }
}

/// A recurrence argument with neither field set.
pub open spec fn empty_recurrence() -> Recurrence {
    Recurrence { recur: None, at_time: None }
}

/// An argument group with no field set acts as an absent one in every
/// step that reads it: the due helper, the goal and tag helpers, the
/// local store's reading of the due date, and the recurrence test.
pub proof fn law_empty_group_is_absent_in_steps(
    durations: Map<Seq<char>, i64>,
    goals: Map<Seq<char>, i32>,
    tags: Map<Seq<char>, i32>,
    now: Moment,
    default: Moment,
)
    ensures
        new_due(Some(empty_due()), durations, now) == new_due(None, durations, now),
        helper_due(Some(empty_due()), durations, now, default) == helper_due(
            None,
            durations,
            now,
            default,
        ),
        due_within_range(Some(empty_due()), durations, now) == due_within_range(None, durations, now),
        forall|r: Result<LocalDue, TaskError>|
            local_due_for(Some(empty_due()), durations, r) == local_due_for(None, durations, r),
        forall|p: GoalPlan| goal_plan_for(Some(empty_goal()), goals, p) == goal_plan_for(None, goals, p),
        forall|p: TagPlan| tag_plan_for(Some(empty_tags()), tags, p) == tag_plan_for(None, tags, p),
        forall|s: GoalStep| goal_step_for(Some(empty_goal()), goals, s) == goal_step_for(None, goals, s),
        forall|s: TagStep| tag_step_for(Some(empty_tags()), tags, s) == tag_step_for(None, tags, s),
        recurs(Some(empty_recurrence())) == recurs(None),
{
}

/// The mode that creates a task from the given arguments.
pub open spec fn new_mode(
    title: String,
    priority: Option<Priority>,
    due: Option<DueArgs>,
    recur: Option<Recurrence>,
    state: Option<State>,
    goal: Option<GoalArgs>,
    tag: Option<TagArgs>,
) -> Mode {
    Mode::Do(DoCmd::New { title, priority, due, recur, state, goal, tag })
}

/// Creating a task with an argument group whose fields are all unset gives
/// the same outcomes, at every time, as creating it without that group:
/// for the due, recurrence, goal and tag groups alike.
pub proof fn law_empty_group_is_absent_in_creation(
    title: String,
    priority: Option<Priority>,
    due: Option<DueArgs>,
    recur: Option<Recurrence>,
    state: Option<State>,
    goal: Option<GoalArgs>,
    tag: Option<TagArgs>,
    goals: Map<Seq<char>, i32>,
    tags: Map<Seq<char>, i32>,
    durations: Map<Seq<char>, i64>,
    now: Moment,
    r: Result<NewTaskPlan, TaskError>,
)
    ensures
        new_task_fits(new_mode(title, priority, Some(empty_due()), recur, state, goal, tag), durations, now)
            == new_task_fits(new_mode(title, priority, None, recur, state, goal, tag), durations, now),
        plan_for(
            new_mode(title, priority, Some(empty_due()), recur, state, goal, tag),
            goals,
            tags,
            durations,
            now,
            r,
        ) == plan_for(new_mode(title, priority, None, recur, state, goal, tag), goals, tags, durations, now, r),
        plan_for(
            new_mode(title, priority, due, Some(empty_recurrence()), state, goal, tag),
            goals,
            tags,
            durations,
            now,
            r,
        ) == plan_for(new_mode(title, priority, due, None, state, goal, tag), goals, tags, durations, now, r),
        plan_for(
            new_mode(title, priority, due, recur, state, Some(empty_goal()), tag),
            goals,
            tags,
            durations,
            now,
            r,
        ) == plan_for(new_mode(title, priority, due, recur, state, None, tag), goals, tags, durations, now, r),
        plan_for(
            new_mode(title, priority, due, recur, state, goal, Some(empty_tags())),
            goals,
            tags,
            durations,
            now,
            r,
        ) == plan_for(new_mode(title, priority, due, recur, state, goal, None), goals, tags, durations, now, r),
{
}

/// Creating a task keeps what the command gives as it is: the title, the
/// priority, the state and the recurrence (its rule and its time of day) of
/// the plan are those of the command; only text that chrono refuses as a due
/// date stops the plan.
pub proof fn law_plan_keeps_command_fields(
    title: String,
    priority: Option<Priority>,
    due: Option<DueArgs>,
    recur: Option<Recurrence>,
    state: Option<State>,
    goal: Option<GoalArgs>,
    tag: Option<TagArgs>,
    goals: Map<Seq<char>, i32>,
    tags: Map<Seq<char>, i32>,
    durations: Map<Seq<char>, i64>,
    now: Moment,
    r: Result<NewTaskPlan, TaskError>,
)
    requires
        plan_for(new_mode(title, priority, due, recur, state, goal, tag), goals, tags, durations, now, r),
    ensures
        r matches Ok(p) ==> {
            &&& p.title@ == title@
            &&& p.priority == priority
            &&& p.state == state
            &&& p.recur == (if recur is Some { recur->0.recur } else { None })
            &&& p.at_time == (if recur is Some { recur->0.at_time } else { None })
        },
        r is Err <==> (due is Some && due->0.due_short is None && due->0.due_datetime is Some
            && parsed_datetime(due->0.due_datetime->0@) is None),
        r matches Err(e) ==> e is ChronoParsing,
{
}

/// The due date of a new task: a shorthand the cache knows counts its
/// duration from the time given, with the nanoseconds kept; an unknown one
/// is `InvalidDue` with its name; text is the moment chrono reads from it;
/// no argument, or both kinds at once, leaves the due date open.
pub proof fn law_plan_due(
    title: String,
    priority: Option<Priority>,
    due: Option<DueArgs>,
    recur: Option<Recurrence>,
    state: Option<State>,
    goal: Option<GoalArgs>,
    tag: Option<TagArgs>,
    goals: Map<Seq<char>, i32>,
    tags: Map<Seq<char>, i32>,
    durations: Map<Seq<char>, i64>,
    now: Moment,
    r: Result<NewTaskPlan, TaskError>,
)
    requires
        plan_for(new_mode(title, priority, due, recur, state, goal, tag), goals, tags, durations, now, r),
    ensures
        due matches Some(d) ==> d.due_short matches Some(sh) ==> d.due_datetime is None
            ==> durations.contains_key(sh@) ==> (r matches Ok(p) && p.due == Ok::<
            Option<Moment>,
            TaskError,
        >(Some(Moment { secs: (now.secs + durations[sh@]) as i64, nanos: now.nanos }))),
        due matches Some(d) ==> d.due_short matches Some(sh) ==> d.due_datetime is None
            ==> !durations.contains_key(sh@) ==> (r matches Ok(p) && p.due matches Err(
            TaskError::InvalidDue(n),
        ) && n@ == sh@),
        due matches Some(d) ==> d.due_datetime matches Some(text) ==> parsed_datetime(text@) matches Some(
            (secs, nanos),
        ) ==> d.due_short is None ==> (r matches Ok(p) && p.due
            == Ok::<Option<Moment>, TaskError>(Some(Moment { secs: secs as i64, nanos: nanos as u32 }))),
        (due is None || (due->0.due_short is None && due->0.due_datetime is None) || (
        due->0.due_short is Some && due->0.due_datetime is Some)) ==> (r matches Ok(p) && p.due
            == Ok::<Option<Moment>, TaskError>(None)),
{
}

/// The goal of a new task: a defined goal gives the id the cache holds for
/// it, an undefined one `InvalidGoal` with its name, a new one is to be
/// stored under its name, and no goal (or both kinds) gives none.
pub proof fn law_plan_goal(goal: Option<GoalArgs>, goals: Map<Seq<char>, i32>, s: GoalStep)
    requires
        goal_step_for(goal, goals, s),
    ensures
        goal matches Some(g) ==> g.goal matches Some(name) ==> g.new_goal is None
            ==> goals.contains_key(name@) ==> s == GoalStep::Known(Ok(Some(goals[name@]))),
        goal matches Some(g) ==> g.goal matches Some(name) ==> g.new_goal is None
            ==> !goals.contains_key(name@) ==> (s matches GoalStep::Known(
            Err(TaskError::InvalidGoal(n)),
        ) && n@ == name@),
        goal matches Some(g) ==> g.new_goal matches Some(new_goal) ==> g.goal is None ==> (
        s matches GoalStep::Create(n) && n@ == new_goal@),
        (goal is None || (goal->0.goal is None && goal->0.new_goal is None) || (goal->0.goal is Some
            && goal->0.new_goal is Some)) ==> s == GoalStep::Known(Ok(None)),
{
}

/// The tags of a new task: new tags are stored under exactly the names
/// given; defined tags that the cache all holds give their ids one for one,
/// in order; otherwise the first name it lacks is `InvalidTag`.
pub proof fn law_plan_tags(tag: Option<TagArgs>, tags: Map<Seq<char>, i32>, s: TagStep)
    requires
        tag_step_for(tag, tags, s),
    ensures
        tag matches Some(t) ==> t.new_tag matches Some(new_tags) ==> t.tag is None ==> (
        s matches TagStep::Create(n) && n@.len() == new_tags@.len() && forall|i: int|
            0 <= i < n@.len() ==> #[trigger] n@[i]@ == new_tags@[i]@),
        tag matches Some(t) ==> t.tag matches Some(names) ==> t.new_tag is None ==> (forall|i: int|
            0 <= i < names@.len() ==> tags.contains_key(#[trigger] names@[i]@)) ==> (
        s matches TagStep::Known(Ok(ids)) && ids@.len() == names@.len() && forall|i: int|
            0 <= i < ids@.len() ==> #[trigger] ids@[i] == tags[names@[i]@]),
        tag matches Some(t) ==> t.tag matches Some(names) ==> t.new_tag is None ==> (exists|i: int|
            0 <= i < names@.len() && !tags.contains_key(#[trigger] names@[i]@)) ==> (
        s matches TagStep::Known(Err(TaskError::InvalidTag(n))) && exists|i: int|
            0 <= i < names@.len() && #[trigger] names@[i]@ == n@ && !tags.contains_key(n@)
                && forall|j: int| 0 <= j < i ==> tags.contains_key(#[trigger] names@[j]@)),
        (tag is None || (tag->0.tag is None && tag->0.new_tag is None) || (tag->0.tag is Some
            && tag->0.new_tag is Some)) ==> (s matches TagStep::Known(Ok(ids)) && ids@.len() == 0),
{
    if tag is Some && tag->0.tag is Some && tag->0.new_tag is None {
        let names = tag->0.tag->0;
        let nv = names_view(names@);
        if forall|i: int| 0 <= i < names@.len() ==> tags.contains_key(#[trigger] names@[i]@) {
            assert forall|i: int| 0 <= i < nv.len() implies tags.contains_key(#[trigger] nv[i]) by {
                assert(nv[i] == names@[i]@);
            }
            lemma_first_unknown_none(tags, nv);
            crate::cache::law_present_values_all_known(tags, nv);
        } else {
            let k = choose|i: int| 0 <= i < names@.len() && !tags.contains_key(#[trigger] names@[i]@);
            assert(nv[k] == names@[k]@);
            lemma_first_unknown_some(tags, nv);
            let n = crate::new_task::first_unknown(tags, nv)->0;
            let w = choose|i: int|
                0 <= i < nv.len() && #[trigger] nv[i] == n && !tags.contains_key(n) && forall|j: int|
                    0 <= j < i ==> tags.contains_key(#[trigger] nv[j]);
            assert(names@[w]@ == n);
            assert forall|j: int| 0 <= j < w implies tags.contains_key(#[trigger] names@[j]@) by {
                assert(nv[j] == names@[j]@);
            }
        }
    }
    if tag is Some && tag->0.tag is None && tag->0.new_tag is Some {
        let new_tags = tag->0.new_tag->0;
        if let TagStep::Create(n) = s {
            assert(names_view(n@).len() == n@.len());
            assert(names_view(new_tags@).len() == new_tags@.len());
            assert forall|i: int| 0 <= i < n@.len() implies #[trigger] n@[i]@ == new_tags@[i]@ by {
                assert(names_view(n@)[i] == n@[i]@);
                assert(names_view(new_tags@)[i] == new_tags@[i]@);
            }
        }
    }
}

/// Where the cache holds every name, none is the first unknown one.
proof fn lemma_first_unknown_none(cache: Map<Seq<char>, i32>, names: Seq<Seq<char>>)
    requires
        forall|i: int| 0 <= i < names.len() ==> cache.contains_key(#[trigger] names[i]),
    ensures
        crate::new_task::first_unknown(cache, names) is None,
    decreases names.len(),
{
    if names.len() > 0 {
        let rest = names.drop_first();
        assert forall|i: int| 0 <= i < rest.len() implies cache.contains_key(#[trigger] rest[i]) by {
            assert(rest[i] == names[i + 1]);
        }
        assert(cache.contains_key(names[0]));
        lemma_first_unknown_none(cache, rest);
    }
}

/// Where the cache lacks some name, the first unknown one is a name it
/// lacks, and it holds every name before it.
proof fn lemma_first_unknown_some(cache: Map<Seq<char>, i32>, names: Seq<Seq<char>>)
    requires
        exists|i: int| 0 <= i < names.len() && !cache.contains_key(#[trigger] names[i]),
    ensures
        crate::new_task::first_unknown(cache, names) matches Some(n) && exists|i: int|
            0 <= i < names.len() && #[trigger] names[i] == n && !cache.contains_key(n) && forall|j: int|
                0 <= j < i ==> cache.contains_key(#[trigger] names[j]),
    decreases names.len(),
{
    if cache.contains_key(names[0]) {
        let rest = names.drop_first();
        let k = choose|i: int| 0 <= i < names.len() && !cache.contains_key(#[trigger] names[i]);
        assert(k != 0);
        assert(rest[k - 1] == names[k]);
        lemma_first_unknown_some(cache, rest);
        let n = crate::new_task::first_unknown(cache, names)->0;
        let i = choose|i: int|
            0 <= i < rest.len() && #[trigger] rest[i] == n && !cache.contains_key(n) && forall|j: int|
                0 <= j < i ==> cache.contains_key(#[trigger] rest[j]);
        assert(names[i + 1] == n);
        assert forall|j: int| 0 <= j < i + 1 implies cache.contains_key(#[trigger] names[j]) by {
            if j > 0 {
                assert(names[j] == rest[j - 1]);
            }
        }
    } else {
        assert(names[0] == names[0]);
    }
}

/// The tag helper saves exactly the new tags given, whether or not defined
/// tags come with them, and then looks up the defined ones; defined tags
/// alone give the ids the cache holds for them; no tags give the sentinel `[0]`.
pub proof fn law_tag_plan(tags: Option<TagArgs>, cache: Map<Seq<char>, i32>, r: TagPlan)
    requires
        tag_plan_for(tags, cache, r),
    ensures
        tags matches Some(t) ==> t.new_tag matches Some(new_tags) ==> (r matches TagPlan::Save {
            new_tags: n,
            known: k,
        } && n@.len() == new_tags@.len() && (forall|i: int|
            0 <= i < n@.len() ==> #[trigger] n@[i]@ == new_tags@[i]@) && (t.tag is None <==> k is None)
            && (t.tag matches Some(names) ==> (k matches Some(kn) && kn@.len() == names@.len()
            && forall|i: int| 0 <= i < kn@.len() ==> #[trigger] kn@[i]@ == names@[i]@))),
        tags matches Some(t) ==> t.tag matches Some(names) ==> t.new_tag is None ==> (
        r matches TagPlan::Ids(ids) && ids@ == present_values(cache, names_view(names@))),
        (tags is None || (tags->0.tag is None && tags->0.new_tag is None)) ==> (
        r matches TagPlan::Ids(ids) && ids@ == seq![0i32]),
{
    if tags is Some && tags->0.new_tag is Some {
        let t = tags->0;
        let new_tags = t.new_tag->0;
        if let TagPlan::Save { new_tags: n, known: k } = r {
            assert(names_view(n@).len() == n@.len());
            assert(names_view(new_tags@).len() == new_tags@.len());
            assert forall|i: int| 0 <= i < n@.len() implies #[trigger] n@[i]@ == new_tags@[i]@ by {
                assert(names_view(n@)[i] == n@[i]@);
                assert(names_view(new_tags@)[i] == new_tags@[i]@);
            }
            if let Some(names) = t.tag {
                let kn = k->0;
                assert(names_view(kn@).len() == kn@.len());
                assert(names_view(names@).len() == names@.len());
                assert forall|i: int| 0 <= i < kn@.len() implies #[trigger] kn@[i]@ == names@[i]@ by {
                    assert(names_view(kn@)[i] == kn@[i]@);
                    assert(names_view(names@)[i] == names@[i]@);
                }
            }
        }
    }
}

/// The goal helper: a defined goal gives the id the cache holds, an
/// undefined one is reported missing and gives no goal (0), a new one is to
/// be saved under its name, and no goal gives none (0).
pub proof fn law_goal_plan(goal: Option<GoalArgs>, goals: Map<Seq<char>, i32>, r: GoalPlan)
    requires
        goal_plan_for(goal, goals, r),
    ensures
        goal matches Some(g) ==> g.goal matches Some(name) ==> g.new_goal is None
            ==> goals.contains_key(name@) ==> planned_goal_id(r) == Some(goals[name@]),
        goal matches Some(g) ==> g.goal matches Some(name) ==> g.new_goal is None
            ==> !goals.contains_key(name@) ==> (r matches GoalPlan::Missing(n) && n@ == name@
            && planned_goal_id(r) == Some(0i32)),
        goal matches Some(g) ==> g.new_goal matches Some(new_goal) ==> g.goal is None ==> (
        r matches GoalPlan::Create(n) && n@ == new_goal@ && planned_goal_id(r) is None),
        (goal is None || (goal->0.goal is None && goal->0.new_goal is None)) ==> planned_goal_id(r)
            == Some(0i32),
{
}

/// The due helper at time `now`: a known shorthand counts its duration from
/// `now`, nanoseconds kept; text is the moment chrono reads from it (none
/// where it refuses the text); everything else is the default.
pub proof fn law_helper_due(due: Option<DueArgs>, durations: Map<Seq<char>, i64>, now: Moment, default: Moment)
    ensures
        due matches Some(d) ==> d.due_short matches Some(sh) ==> d.due_datetime is None
            ==> durations.contains_key(sh@) ==> helper_due(due, durations, now, default) == Some(
            Moment { secs: (now.secs + durations[sh@]) as i64, nanos: now.nanos },
        ),
        due matches Some(d) ==> d.due_datetime matches Some(text) ==> d.due_short is None ==> (
        helper_due(due, durations, now, default) == match parsed_datetime(text@) {
            Some((secs, nanos)) => Some(Moment { secs: secs as i64, nanos: nanos as u32 }),
            None => None,
        }),
        (due is None || (due->0.due_short is None && due->0.due_datetime is None) || (
        due->0.due_short is Some && due->0.due_datetime is Some) || (due->0.due_short matches Some(
            sh,
        ) && due->0.due_datetime is None && !durations.contains_key(sh@))) ==> helper_due(
            due,
            durations,
            now,
            default,
        ) == Some(default),
{
}

/// The local store: an unknown shorthand is `InvalidDue` with its name
/// before anything else, whatever text comes with it; a known one is looked
/// up, and wins over text; text is read when no shorthand is given.
pub proof fn law_local_due(due: Option<DueArgs>, durations: Map<Seq<char>, i64>, r: Result<LocalDue, TaskError>)
    requires
        local_due_for(due, durations, r),
    ensures
        due matches Some(d) ==> d.due_short matches Some(sh) ==> !durations.contains_key(sh@) ==> (
        r matches Err(TaskError::InvalidDue(n)) && n@ == sh@),
        due matches Some(d) ==> d.due_short matches Some(sh) ==> durations.contains_key(sh@) ==> (
        r matches Ok(LocalDue::Shorthand(n)) && n@ == sh@),
        due matches Some(d) ==> d.due_datetime matches Some(text) ==> d.due_short is None ==> (
        r matches Ok(LocalDue::Text(n)) && n@ == text@),
        (due is None || (due->0.due_short is None && due->0.due_datetime is None)) ==> (
        r matches Ok(LocalDue::Absent)),
{
}

/// The local store's due date at time `now`: a shorthand counts the first
/// stored duration from `now`, nanoseconds kept, or is `Disparity` where
/// the table stores none; text is the moment chrono reads; no argument
/// leaves the due date open.
pub proof fn law_local_due_value(step: LocalDue, stored: Seq<i64>, now: Moment, r: Result<Option<Moment>, TaskError>)
    requires
        local_due_value_for(step, stored, now, r),
    ensures
        (step is Shorthand && stored.len() > 0) ==> r == Ok::<Option<Moment>, TaskError>(
            Some(Moment { secs: (now.secs + stored[0]) as i64, nanos: now.nanos }),
        ),
        step matches LocalDue::Shorthand(s) ==> stored.len() == 0 ==> (r matches Err(
            TaskError::Disparity(m),
        ) && m@ == "Shorthand '"@ + s@ + "' found in const but not in database."@),
        step is Absent ==> r == Ok::<Option<Moment>, TaskError>(None),
        step matches LocalDue::Text(t) ==> parsed_datetime(t@) matches Some((secs, nanos)) ==> r
            == Ok::<Option<Moment>, TaskError>(Some(Moment { secs: secs as i64, nanos: nanos as u32 })),
        step matches LocalDue::Text(t) ==> parsed_datetime(t@) is None ==> r matches Err(
            TaskError::ChronoParsing(_),
        ),
{
}

/// The assembler's updates: a goal message sets the goal unless its id is
/// 0; a tag message attaches exactly its ids unless they are exactly `[0]`;
/// the due, state and priority messages set their field of the same task;
/// the closing message calls for none.
pub proof fn law_statements(m: Msg, r: Option<Statement>)
    requires
        statement_for(m, r),
    ensures
        m matches Msg::Goal { task_id, goal_id } ==> (if goal_id == 0 {
            r is None
        } else {
            r == Some(Statement::SetGoal { task_id, goal_id })
        }),
        m matches Msg::Tag { task_id, tag_ids } ==> (if tag_ids@ == seq![0i32] {
            r is None
        } else {
            r matches Some(Statement::AttachTags { task_id: t, tag_ids: ids }) && t == task_id && ids@
                == tag_ids@
        }),
        m matches Msg::Due { task_id, parsed_due } ==> (r matches Some(
            Statement::SetDue { task_id: t, due },
        ) && t == task_id && due@ == utc_display(parsed_due.secs as int, parsed_due.nanos as int)),
        m matches Msg::State { task_id, state } ==> (r matches Some(
            Statement::SetState { task_id: t, state: s },
        ) && t == task_id && s@ == state@),
        m matches Msg::Priority { task_id, priority } ==> (r matches Some(
            Statement::SetPriority { task_id: t, priority: p },
        ) && t == task_id && p@ == priority@),
        m is Clockout ==> r is None,
{
}

/// A single failed update makes the assembler's verdict a failure; with no
/// failed update it is a success.
pub proof fn law_verdict(outcomes: Seq<bool>)
    ensures
        all_succeeded(outcomes) <==> forall|i: int| 0 <= i < outcomes.len() ==> #[trigger] outcomes[i],
        forall|i: int| 0 <= i < outcomes.len() && !#[trigger] outcomes[i] ==> !all_succeeded(outcomes),
        all_succeeded(Seq::<bool>::empty()),
{
}

/// The labels the database knows: each priority and each state by its own name.
pub proof fn law_labels()
    ensures
        priority_label(Priority::Low) == "Low"@,
        priority_label(Priority::Medium) == "Medium"@,
        priority_label(Priority::High) == "High"@,
        state_label(State::Scheduled) == "Scheduled"@,
        state_label(State::Pending) == "Pending"@,
        state_label(State::Doing) == "Doing"@,
        state_label(State::Paused) == "Paused"@,
        state_label(State::Completed) == "Completed"@,
{
}

/// A task recurs exactly where it has a recurrence rule or a custom period;
/// a recurrence argument makes a command recurring exactly where it gives a
/// rule or a time of day.
pub proof fn law_recurrence(t: Task, recur: Option<Recurrence>)
    ensures
        task_recurs(t) <==> (t.recur != Recur::Never || t.custom_recur != 0),
        recurs(recur) <==> (recur matches Some(x) && (x.recur is Some || x.at_time is Some)),
{
}

} // verus!
