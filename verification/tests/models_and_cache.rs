use jolonel::cache::{retrieve_values, NameCache};
use jolonel::models::{Priority, Recur, State, Task};
use jolonel::time::{Moment, DEFAULT_DUE};

#[test]
fn priority_labels() {
    assert_eq!(Priority::Low.to_str(), "Low");
    assert_eq!(Priority::Medium.to_str(), "Medium");
    assert_eq!(Priority::High.to_str(), "High");
}

#[test]
fn state_labels() {
    assert_eq!(State::Scheduled.to_str(), "Scheduled");
    assert_eq!(State::Pending.to_str(), "Pending");
    assert_eq!(State::Doing.to_str(), "Doing");
    assert_eq!(State::Paused.to_str(), "Paused");
    assert_eq!(State::Completed.to_str(), "Completed");
}

#[test]
fn labels_are_distinct() {
    let ps = [Priority::Low, Priority::Medium, Priority::High];
    for a in ps.iter() {
        for b in ps.iter() {
            assert_eq!(a.to_str() == b.to_str(), a == b);
        }
    }
    let ss = [State::Scheduled, State::Pending, State::Doing, State::Paused, State::Completed];
    for a in ss.iter() {
        for b in ss.iter() {
            assert_eq!(a.to_str() == b.to_str(), a == b);
        }
    }
}

#[test]
fn task_new_defaults() {
    let t = Task::new("write".to_string(), None, None, None, None, None, None, None, vec![]);
    assert_eq!(t.id, 0);
    assert_eq!(t.title, "write");
    assert_eq!(t.priority, Priority::Low);
    assert_eq!(t.due_by, Moment { secs: DEFAULT_DUE, nanos: 0 });
    assert_eq!(t.recur, Recur::Never);
    assert_eq!(t.at_time, 0);
    assert_eq!(t.custom_recur, 0);
    assert_eq!(t.state, State::Pending);
    assert_eq!(t.goal, 0);
    assert!(t.tag.is_empty());
}

#[test]
fn task_new_given_fields() {
    let t = Task::new(
        "read".to_string(),
        Some(Priority::High),
        Some(Moment { secs: 100, nanos: 3 }),
        Some(Recur::Weekly),
        Some(3600),
        Some(60),
        Some(State::Doing),
        Some(7),
        vec![1, 2],
    );
    assert_eq!(t.priority, Priority::High);
    assert_eq!(t.due_by, Moment { secs: 100, nanos: 3 });
    assert_eq!(t.recur, Recur::Weekly);
    assert_eq!(t.at_time, 3600);
    assert_eq!(t.custom_recur, 60);
    assert_eq!(t.state, State::Doing);
    assert_eq!(t.goal, 7);
    assert_eq!(t.tag, vec![1, 2]);
}

fn rows() -> Vec<(String, i32)> {
    vec![("a".to_string(), 1), ("b".to_string(), 2), ("a".to_string(), 3)]
}

#[test]
fn later_row_wins() {
    let c = NameCache::from_rows(rows());
    assert_eq!(c.get("a"), Some(3));
    assert_eq!(c.get("b"), Some(2));
    assert_eq!(c.get("c"), None);
    assert!(c.contains("a"));
    assert!(!c.contains("c"));
}

#[test]
fn empty_rows_empty_cache() {
    let c: NameCache<i64> = NameCache::from_rows(vec![]);
    assert_eq!(c.get("a"), None);
    let d: NameCache<i64> = NameCache::new();
    assert!(!d.contains(""));
}

#[test]
fn insert_then_get() {
    let mut c = NameCache::from_rows(rows());
    c.insert("c".to_string(), 9);
    c.insert("b".to_string(), 5);
    assert_eq!(c.get("c"), Some(9));
    assert_eq!(c.get("b"), Some(5));
    assert_eq!(c.get("a"), Some(3));
}

#[test]
fn retrieve_skips_unknown_keeps_order() {
    let c = NameCache::from_rows(rows());
    let keys = vec!["b".to_string(), "x".to_string(), "a".to_string()];
    let got: Vec<i32> = retrieve_values(&c, &keys).into_iter().copied().collect();
    assert_eq!(got, vec![2, 3]);
}

#[test]
fn retrieve_all_known_one_for_one() {
    let c = NameCache::from_rows(rows());
    let keys = vec!["a".to_string(), "a".to_string(), "b".to_string()];
    let got: Vec<i32> = retrieve_values(&c, &keys).into_iter().copied().collect();
    assert_eq!(got, vec![3, 3, 2]);
    let none: Vec<String> = vec![];
    assert!(retrieve_values(&c, &none).is_empty());
}
