use jolonel::cache::NameCache;
use jolonel::cli::{DoCmd, DueArgs, GoalArgs, Mode, Recurrence, TagArgs, ViewCmd};
use jolonel::errors::TaskError;
use jolonel::helpers::{resolve_due, saved_goal_id};
use jolonel::new_task::{
    check_local_due, goal_step, local_due_at, local_due_now, new_task_command, plan_new_task, tag_step,
    GoalStep, LocalDue, TagStep,
};
use jolonel::dispatch::is_recur;
use jolonel::time::Moment;

fn at(secs: i64) -> Moment {
    Moment { secs, nanos: 0 }
}

fn durations() -> NameCache<i64> {
    NameCache::from_rows(vec![("1h".to_string(), 3600)])
}

fn due(short: Option<&str>, text: Option<&str>) -> Option<DueArgs> {
    Some(DueArgs { due_short: short.map(|s| s.to_string()), due_datetime: text.map(|s| s.to_string()) })
}

#[test]
fn local_unknown_shorthand_refused_even_with_text() {
    let r = check_local_due(&due(Some("2d"), Some("2024-01-02 03:04:05")), &durations());
    assert!(matches!(r, Err(TaskError::InvalidDue(n)) if n == "2d"));
    let r = check_local_due(&due(Some("2d"), None), &durations());
    assert!(matches!(r, Err(TaskError::InvalidDue(n)) if n == "2d"));
}

#[test]
fn local_shorthand_takes_precedence() {
    let r = check_local_due(&due(Some("1h"), Some("2024-01-02 03:04:05")), &durations());
    assert!(matches!(r, Ok(LocalDue::Shorthand(n)) if n == "1h"));
    assert!(matches!(check_local_due(&due(None, Some("x")), &durations()), Ok(LocalDue::Text(t)) if t == "x"));
    assert!(matches!(check_local_due(&due(None, None), &durations()), Ok(LocalDue::Absent)));
    assert!(matches!(check_local_due(&None, &durations()), Ok(LocalDue::Absent)));
}

#[test]
fn local_due_values() {
    let sh = LocalDue::Shorthand("1h".to_string());
    assert_eq!(local_due_at(&sh, &vec![3600, 10], Moment { secs: 1000, nanos: 7 }).unwrap(), Some(Moment { secs: 4600, nanos: 7 }));
    let r = local_due_at(&sh, &vec![], at(1000));
    assert!(matches!(r, Err(TaskError::Disparity(m)) if m == "Shorthand '1h' found in const but not in database."));
    let t = LocalDue::Text("2024-01-02 03:04:05".to_string());
    assert_eq!(local_due_at(&t, &vec![], at(0)).unwrap(), Some(at(1704164645)));
    assert!(matches!(local_due_at(&LocalDue::Text("no".to_string()), &vec![], at(0)), Err(TaskError::ChronoParsing(_))));
    assert_eq!(local_due_at(&LocalDue::Absent, &vec![], at(0)).unwrap(), None);
}

#[test]
fn local_due_from_clock() {
    let sh = LocalDue::Shorthand("1h".to_string());
    let v = local_due_now(&sh, &vec![3600]).unwrap().unwrap().unwrap();
    assert!(v.secs > 1704164645);
    assert!(local_due_now(&sh, &vec![i64::MAX]).is_none());
    assert!(matches!(local_due_now(&sh, &vec![]), Some(Err(TaskError::Disparity(_)))));
    assert_eq!(local_due_now(&LocalDue::Absent, &vec![]).unwrap().unwrap(), None);
}

#[test]
fn local_command_and_steps() {
    assert!(matches!(new_task_command(Mode::View(ViewCmd::All)), Err(TaskError::WrongWay(_))));
    let cmd = Mode::Do(DoCmd::New { title: "t".to_string(), priority: None, due: None, recur: None, state: None, goal: None, tag: None });
    assert!(matches!(new_task_command(cmd), Ok(DoCmd::New { title, .. }) if title == "t"));
    let goals = NameCache::from_rows(vec![("health".to_string(), 5)]);
    let g = goal_step(&Some(GoalArgs { goal: Some("x".to_string()), new_goal: None }), &goals);
    assert!(matches!(g, GoalStep::Known(Err(TaskError::InvalidGoal(n))) if n == "x"));
    let tags = NameCache::from_rows(vec![("home".to_string(), 1)]);
    let t = tag_step(&Some(TagArgs { tag: Some(vec!["home".to_string()]), new_tag: None }), &tags);
    assert!(matches!(t, TagStep::Known(Ok(ids)) if ids == vec![1]));
}

#[test]
fn existing_goal_saved_again_gives_no_goal() {
    assert_eq!(saved_goal_id(Some(8)), 8);
    assert_eq!(saved_goal_id(None), 0);
}

#[test]
fn empty_groups_act_as_absent() {
    let d = durations();
    assert_eq!(resolve_due(&due(None, None), &d, at(10), at(3)).unwrap(), resolve_due(&None, &d, at(10), at(3)).unwrap());
    assert_eq!(is_recur(Some(Recurrence { recur: None, at_time: None })), is_recur(None));
    let goals = NameCache::from_rows(vec![("health".to_string(), 5)]);
    let tags = NameCache::from_rows(vec![("home".to_string(), 1)]);
    let mk = |due: Option<DueArgs>, goal: Option<GoalArgs>, tag: Option<TagArgs>| {
        Mode::Do(DoCmd::New { title: "t".to_string(), priority: None, due, recur: None, state: None, goal, tag })
    };
    let a = plan_new_task(&mk(due(None, None), Some(GoalArgs { goal: None, new_goal: None }), Some(TagArgs { tag: None, new_tag: None })), &goals, &tags, &d, at(10)).unwrap();
    let b = plan_new_task(&mk(None, None, None), &goals, &tags, &d, at(10)).unwrap();
    assert!(matches!((&a.due, &b.due), (Ok(None), Ok(None))));
    assert!(matches!((&a.goal, &b.goal), (GoalStep::Known(Ok(None)), GoalStep::Known(Ok(None)))));
    assert!(matches!((&a.tag, &b.tag), (TagStep::Known(Ok(x)), TagStep::Known(Ok(y))) if x.is_empty() && y.is_empty()));
}
