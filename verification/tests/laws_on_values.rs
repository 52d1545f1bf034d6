use jolonel::assemble::Msg;
use jolonel::cache::NameCache;
use jolonel::cli::{DoCmd, DueArgs, GoalArgs, Mode, TagArgs};
use jolonel::helpers::{plan_goal, plan_tags, resolve_due, TagPlan};
use jolonel::new_task::plan_new_task;
use jolonel::time::{Moment, DEFAULT_DUE};
use jolonel::errors::TaskError;
use jolonel::new_task::stored_duration;

#[test]
fn absent_tags_attach_nothing() {
    let cache = NameCache::from_rows(vec![("home".to_string(), 1)]);
    for tags in [None, Some(TagArgs { tag: None, new_tag: None })] {
        match plan_tags(&tags, &cache) {
            TagPlan::Ids(ids) => assert!(Msg::Tag { task_id: 9, tag_ids: ids }.process().is_none()),
            TagPlan::Save { .. } => panic!("nothing to save"),
        }
    }
}

#[test]
fn absent_or_missing_goal_sets_nothing() {
    let goals = NameCache::from_rows(vec![("health".to_string(), 5)]);
    let cases = [
        None,
        Some(GoalArgs { goal: None, new_goal: None }),
        Some(GoalArgs { goal: Some("wealth".to_string()), new_goal: None }),
    ];
    for goal in cases {
        let id = plan_goal(&goal, &goals).goal_id().unwrap();
        assert!(Msg::Goal { task_id: 9, goal_id: id }.process().is_none());
    }
    let id = plan_goal(&Some(GoalArgs { goal: Some("health".to_string()), new_goal: None }), &goals)
        .goal_id()
        .unwrap();
    assert!(Msg::Goal { task_id: 9, goal_id: id }.process().is_some());
}

fn new_with_due(due: Option<DueArgs>) -> Mode {
    Mode::Do(DoCmd::New { title: "t".to_string(), priority: None, due, recur: None, state: None, goal: None, tag: None })
}

#[test]
fn due_paths_agree() {
    let goals = NameCache::new();
    let tags = NameCache::new();
    let durations = NameCache::from_rows(vec![("1h".to_string(), 3600)]);
    let now = Moment { secs: 5000, nanos: 9 };
    let dflt = Moment { secs: DEFAULT_DUE, nanos: 0 };
    let cases = [
        Some(DueArgs { due_short: Some("1h".to_string()), due_datetime: None }),
        Some(DueArgs { due_short: None, due_datetime: Some("2024-01-02 03:04:05".to_string()) }),
    ];
    for due in cases {
        let helper = resolve_due(&due, &durations, now, dflt).unwrap();
        let planned = plan_new_task(&new_with_due(due), &goals, &tags, &durations, now).unwrap();
        assert_eq!(planned.due.unwrap(), Some(helper));
    }
    let open = [None, Some(DueArgs { due_short: Some("2d".to_string()), due_datetime: None })];
    for due in open {
        assert_eq!(resolve_due(&due, &durations, now, dflt).unwrap(), dflt);
        let planned = plan_new_task(&new_with_due(due), &goals, &tags, &durations, now).unwrap();
        assert!(!matches!(planned.due, Ok(Some(_))));
    }
    let bad = Some(DueArgs { due_short: None, due_datetime: Some("never".to_string()) });
    assert!(resolve_due(&bad, &durations, now, dflt).is_err());
    assert!(plan_new_task(&new_with_due(bad), &goals, &tags, &durations, now).is_err());
}

#[test]
fn stored_duration_first_row_or_disparity() {
    assert_eq!(stored_duration("1h", &vec![3600, 7200]).unwrap(), 3600);
    assert!(matches!(stored_duration("1h", &vec![]), Err(TaskError::Disparity(m)) if m == "Shorthand '1h' found in const but not in database."));
}
