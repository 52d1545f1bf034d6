use jolonel::cache::NameCache;
use jolonel::cli::{DueArgs, GoalArgs, TagArgs};
use jolonel::errors::TaskError;
use jolonel::helpers::{
    due_fits, finish_tags, initial_priority, initial_state, plan_goal, plan_tags, resolve_due,
    resolve_due_now, GoalPlan, TagPlan,
};
use jolonel::models::{Priority, State};
use jolonel::time::{local_default_due, valid_chrono_moment, Moment, DEFAULT_DUE, MAX_TIMESTAMP, MIN_TIMESTAMP};

fn at(secs: i64) -> Moment {
    Moment { secs, nanos: 0 }
}

fn dflt() -> Moment {
    at(DEFAULT_DUE)
}

fn durations() -> NameCache<i64> {
    NameCache::from_rows(vec![("1h".to_string(), 3600), ("back".to_string(), -60)])
}

fn short(s: &str) -> Option<DueArgs> {
    Some(DueArgs { due_short: Some(s.to_string()), due_datetime: None })
}

fn text(s: &str) -> Option<DueArgs> {
    Some(DueArgs { due_short: None, due_datetime: Some(s.to_string()) })
}

#[test]
fn due_known_shorthand_counts_from_now() {
    assert_eq!(resolve_due(&short("1h"), &durations(), at(1000), dflt()).unwrap(), at(4600));
    assert_eq!(resolve_due(&short("back"), &durations(), at(1000), dflt()).unwrap(), at(940));
}

#[test]
fn due_unknown_shorthand_is_default() {
    assert_eq!(resolve_due(&short("2d"), &durations(), at(1000), dflt()).unwrap(), dflt());
}

#[test]
fn due_absent_or_both_is_default() {
    assert_eq!(resolve_due(&None, &durations(), at(1000), dflt()).unwrap(), dflt());
    let empty = Some(DueArgs { due_short: None, due_datetime: None });
    assert_eq!(resolve_due(&empty, &durations(), at(1000), dflt()).unwrap(), dflt());
    let both = Some(DueArgs {
        due_short: Some("1h".to_string()),
        due_datetime: Some("2024-01-02 03:04:05".to_string()),
    });
    assert_eq!(resolve_due(&both, &durations(), at(1000), dflt()).unwrap(), dflt());
}

#[test]
fn due_text_is_read() {
    assert_eq!(resolve_due(&text("2024-01-02 03:04:05"), &durations(), at(0), dflt()).unwrap(), at(1704164645));
    assert_eq!(resolve_due(&text("1970-01-01 00:00:00"), &durations(), at(0), dflt()).unwrap(), at(0));
}

#[test]
fn due_text_refused() {
    assert!(matches!(
        resolve_due(&text("tomorrow"), &durations(), at(0), dflt()),
        Err(TaskError::ChronoParsing(_))
    ));
    assert!(matches!(
        resolve_due(&text("2024-01-02"), &durations(), at(0), dflt()),
        Err(TaskError::ChronoParsing(_))
    ));
    assert!(matches!(
        resolve_due(&text("2024-13-02 03:04:05"), &durations(), at(0), dflt()),
        Err(TaskError::ChronoParsing(_))
    ));
}

#[test]
fn due_range_edges() {
    let d = durations();
    assert!(due_fits(&short("1h"), &d, at(MAX_TIMESTAMP - 3600)));
    assert!(!due_fits(&short("1h"), &d, at(MAX_TIMESTAMP - 3599)));
    assert!(due_fits(&short("back"), &d, at(MIN_TIMESTAMP + 60)));
    assert!(!due_fits(&short("back"), &d, at(MIN_TIMESTAMP + 59)));
    assert!(!due_fits(&short("1h"), &d, at(MIN_TIMESTAMP - 3600)));
    assert!(!due_fits(&short("back"), &d, at(MAX_TIMESTAMP + 60)));
    assert!(due_fits(&short("nope"), &d, at(MAX_TIMESTAMP)));
    assert!(due_fits(&None, &d, at(MAX_TIMESTAMP)));
    assert_eq!(resolve_due(&short("1h"), &d, at(MAX_TIMESTAMP - 3600), dflt()).unwrap(), at(MAX_TIMESTAMP));
    assert!(valid_chrono_moment(at(MAX_TIMESTAMP)));
    assert!(!valid_chrono_moment(at(MAX_TIMESTAMP + 1)));
    assert!(valid_chrono_moment(at(MIN_TIMESTAMP)));
    assert!(!valid_chrono_moment(at(MIN_TIMESTAMP - 1)));
    assert!(valid_chrono_moment(Moment { secs: 59, nanos: 1_500_000_000 }));
    assert!(!valid_chrono_moment(Moment { secs: 58, nanos: 1_500_000_000 }));
    assert!(valid_chrono_moment(Moment { secs: -1, nanos: 1_500_000_000 }));
    assert!(!valid_chrono_moment(Moment { secs: -2, nanos: 1_500_000_000 }));
}

#[test]
fn due_range_matches_chrono_bounds() {
    let first = resolve_due(&text("-262143-01-01 00:00:00"), &durations(), at(0), dflt()).unwrap();
    assert_eq!(first, at(MIN_TIMESTAMP));
    let last = resolve_due(&text("+262142-12-31 23:59:59"), &durations(), at(0), dflt()).unwrap();
    assert_eq!(last, at(MAX_TIMESTAMP));
}

#[test]
fn due_now_settles() {
    let d = durations();
    assert_eq!(resolve_due_now(&None, &d).unwrap().unwrap(), dflt());
    let huge = NameCache::from_rows(vec![("forever".to_string(), i64::MAX)]);
    assert!(resolve_due_now(&short("forever"), &huge).is_none());
    assert!(matches!(resolve_due_now(&text("nope"), &d), Some(Err(TaskError::ChronoParsing(_)))));
    let soon = resolve_due_now(&short("1h"), &d).unwrap().unwrap();
    assert!(soon.secs > 1704164645);
    assert!(soon.nanos < 1_000_000_000);
}

fn goals() -> NameCache<i32> {
    NameCache::from_rows(vec![("health".to_string(), 5)])
}

#[test]
fn goal_plans() {
    let g = |goal: Option<&str>, new_goal: Option<&str>| {
        Some(GoalArgs { goal: goal.map(|s| s.to_string()), new_goal: new_goal.map(|s| s.to_string()) })
    };
    let p = plan_goal(&g(Some("health"), None), &goals());
    assert!(matches!(p, GoalPlan::Id(5)));
    assert_eq!(p.goal_id(), Some(5));
    let p = plan_goal(&g(Some("wealth"), None), &goals());
    assert!(matches!(&p, GoalPlan::Missing(n) if n == "wealth"));
    assert_eq!(p.goal_id(), Some(0));
    let p = plan_goal(&g(None, Some("wealth")), &goals());
    assert!(matches!(&p, GoalPlan::Create(n) if n == "wealth"));
    assert_eq!(p.goal_id(), None);
    assert!(matches!(plan_goal(&g(Some("health"), Some("x")), &goals()), GoalPlan::Id(0)));
    assert!(matches!(plan_goal(&g(None, None), &goals()), GoalPlan::Id(0)));
    assert!(matches!(plan_goal(&None, &goals()), GoalPlan::Id(0)));
}

fn tags() -> NameCache<i32> {
    NameCache::from_rows(vec![("home".to_string(), 1), ("work".to_string(), 2)])
}

fn names(v: &[&str]) -> Option<Vec<String>> {
    Some(v.iter().map(|s| s.to_string()).collect())
}

#[test]
fn tag_plans() {
    let p = plan_tags(&Some(TagArgs { tag: names(&["work", "gym", "home"]), new_tag: None }), &tags());
    assert!(matches!(&p, TagPlan::Ids(ids) if ids == &vec![2, 1]));
    let p = plan_tags(&Some(TagArgs { tag: None, new_tag: names(&["gym"]) }), &tags());
    assert!(matches!(&p, TagPlan::Save { new_tags, known: None } if new_tags == &vec!["gym".to_string()]));
    let p = plan_tags(&Some(TagArgs { tag: names(&["home"]), new_tag: names(&["gym"]) }), &tags());
    assert!(matches!(&p, TagPlan::Save { known: Some(k), .. } if k == &vec!["home".to_string()]));
    let p = plan_tags(&Some(TagArgs { tag: None, new_tag: None }), &tags());
    assert!(matches!(&p, TagPlan::Ids(ids) if ids == &vec![0]));
    assert!(matches!(&plan_tags(&None, &tags()), TagPlan::Ids(ids) if ids == &vec![0]));
}

#[test]
fn tags_finished_after_saving() {
    let mut refreshed = tags();
    refreshed.insert("gym".to_string(), 3);
    assert_eq!(finish_tags(vec![3], &names(&["home", "gym", "nope"]), &refreshed), vec![3, 1, 3]);
    assert_eq!(finish_tags(vec![3], &None, &refreshed), vec![3]);
    assert_eq!(finish_tags(vec![], &None, &refreshed), Vec::<i32>::new());
}

#[test]
fn first_state_and_priority() {
    assert_eq!(initial_state(None), "Pending");
    assert_eq!(initial_state(Some(State::Paused)), "Paused");
    assert_eq!(initial_priority(None), "Low");
    assert_eq!(initial_priority(Some(Priority::Medium)), "Medium");
}

#[test]
fn due_keeps_nanoseconds() {
    let now = Moment { secs: 1000, nanos: 250 };
    assert_eq!(resolve_due(&short("1h"), &durations(), now, dflt()).unwrap(), Moment { secs: 4600, nanos: 250 });
    assert_eq!(resolve_due(&short("2d"), &durations(), now, at(7)).unwrap(), at(7));
}

#[test]
fn default_in_local_zone() {
    assert_eq!(local_default_due(3600), at(DEFAULT_DUE - 3600));
    assert_eq!(local_default_due(-7200), at(DEFAULT_DUE + 7200));
    assert_eq!(local_default_due(0), dflt());
}

#[test]
fn due_text_leap_second() {
    let leap = resolve_due(&text("1970-01-01 00:00:60"), &durations(), at(0), dflt()).unwrap();
    assert_eq!(leap, Moment { secs: 59, nanos: 1_000_000_000 });
    assert!(valid_chrono_moment(leap));
}
