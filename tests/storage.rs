use bounty_flow::principal::Principal;
use bounty_flow::store::{TaskCounter, TaskStore};
use bounty_flow::contract::open_task;
use bounty_flow::error::ContractError;
use bounty_flow::task::{Task, TaskStatus};

#[test]
fn counter_hands_out_each_id_once() {
    let mut c = TaskCounter::new();
    assert_eq!(c.current(), 0);
    assert_eq!(c.next_id(), 1);
    assert_eq!(c.next_id(), 2);
    assert_eq!(c.next_id(), 3);
    assert_eq!(c.current(), 3);
}

#[test]
fn store_replaces_whole_records() {
    let mut s = TaskStore::new();
    assert!(s.get(1).is_none());
    s.put(1, Task::new(1, Principal::new("A"), String::from("first"), 5));
    assert_eq!(s.get(1).map(|t| t.title.clone()), Some(String::from("first")));
    s.put(1, Task::new(1, Principal::new("A"), String::from("second"), 6));
    assert_eq!(s.get(1).map(|t| t.amount), Some(6));
    let taken = s.take(1).unwrap();
    assert_eq!(taken.title, "second");
    assert!(s.get(1).is_none());
    assert!(s.take(1).is_none());
}

#[test]
fn counter_resumes_from_stored_value() {
    let mut c = TaskCounter::resume(41);
    assert_eq!(c.current(), 41);
    assert_eq!(c.next_id(), 42);
}

#[test]
fn open_task_draws_an_id_only_when_accepted() {
    let mut c = TaskCounter::resume(6);
    assert!(matches!(
        open_task(&mut c, Principal::new("A"), String::from("x"), 0),
        Err(ContractError::InvalidAmount)
    ));
    assert_eq!(c.current(), 6);
    let t = open_task(&mut c, Principal::new("A"), String::from("x"), 9).unwrap();
    assert_eq!(c.current(), 7);
    assert_eq!(t.id, 7);
    assert_eq!(t.amount, 9);
    assert_eq!(t.status, TaskStatus::Pending);
    assert_eq!(t.creator.address(), "A");
    assert_eq!(t.freelancer.address(), "A");
}

#[test]
fn status_flags_round_trip() {
    assert_eq!(TaskStatus::from_flags(false, false), TaskStatus::Pending);
    assert_eq!(TaskStatus::from_flags(true, false), TaskStatus::Completed);
    assert_eq!(TaskStatus::from_flags(true, true), TaskStatus::Paid);
    assert_eq!(TaskStatus::from_flags(false, true), TaskStatus::Paid);
    for s in [TaskStatus::Pending, TaskStatus::Completed, TaskStatus::Paid] {
        assert_eq!(TaskStatus::from_flags(s.is_completed(), s.is_paid()), s);
    }
    assert!(!TaskStatus::Pending.is_completed());
    assert!(TaskStatus::Paid.is_completed());
    assert!(!TaskStatus::Completed.is_paid());
}
