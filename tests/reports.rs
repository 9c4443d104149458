use dumbit::{
    days_in_month, deadline_le, digit_text, hours_text, natural_text, no_tasks_notice,
    rejected_view, task_row, today_view, week_view, CalendarDate, Status, Task,
};

fn task(title: &str, hours: u32, deadline: &str, status: Status) -> Task {
    Task {
        title: title.to_string(),
        domain: "Work".to_string(),
        difficulty: "LOW".to_string(),
        est_hours: hours,
        deadline: deadline.to_string(),
        status,
    }
}

fn fixture() -> Vec<Task> {
    vec![
        task("write", 20, "2025-06-12", Status::Accepted),
        task("read", 10, "2025-06-10", Status::Accepted),
        task("plan", 30, "2025-06-11", Status::Rejected),
        task("ship", 15, "2025-06-10", Status::Completed),
        task("test", 25, "2025-06-11", Status::Accepted),
    ]
}

fn titles(ts: &[Task]) -> Vec<String> {
    ts.iter().map(|t| t.title.clone()).collect()
}

#[test]
fn week_view_sorts_accepted_by_deadline() {
    let w = week_view(&fixture());
    assert_eq!(titles(&w), vec!["read", "test", "write"]);
    assert!(w.iter().all(|t| t.status == Status::Accepted));
}

#[test]
fn week_view_keeps_equal_deadlines() {
    let ts = vec![
        task("x", 1, "2025-06-11", Status::Accepted),
        task("y", 1, "2025-06-10", Status::Accepted),
        task("z", 1, "2025-06-11", Status::Accepted),
    ];
    let w = week_view(&ts);
    assert_eq!(titles(&w), vec!["y", "x", "z"]);
    assert!(week_view(&Vec::new()).is_empty());
}

#[test]
fn today_view_keeps_accepted_of_the_day() {
    let t = today_view(&fixture(), &"2025-06-10".to_string());
    assert_eq!(titles(&t), vec!["read"]);
    let t = today_view(&fixture(), &"2025-06-11".to_string());
    assert_eq!(titles(&t), vec!["test"]);
    assert!(today_view(&fixture(), &"2025-06-13".to_string()).is_empty());
}

#[test]
fn rejected_view_keeps_rejected() {
    let r = rejected_view(&fixture());
    assert_eq!(titles(&r), vec!["plan"]);
    assert_eq!(r[0].est_hours, 30);
    assert_eq!(r[0].deadline, "2025-06-11");
}

#[test]
fn rows_show_hours_with_one_decimal() {
    let t = task("read", 65, "2025-06-10", Status::Accepted);
    assert_eq!(task_row(&t), vec!["2025-06-10", "read", "6.5", "ACCEPTED"]);
    let t = task("big", 120, "2025-06-10", Status::Rejected);
    assert_eq!(task_row(&t), vec!["2025-06-10", "big", "12.0", "REJECTED"]);
    assert_eq!(no_tasks_notice("TODAY"), "TODAY: No tasks");
}

#[test]
fn number_text() {
    assert_eq!(natural_text(0), "0");
    assert_eq!(natural_text(7), "7");
    assert_eq!(natural_text(1234), "1234");
    assert_eq!(natural_text(u128::MAX), u128::MAX.to_string());
    assert_eq!(hours_text(0), "0.0");
    assert_eq!(hours_text(5), "0.5");
    assert_eq!(hours_text(80), "8.0");
    assert_eq!(hours_text(1001), "100.1");
    assert_eq!(digit_text(9), "9");
}

#[test]
fn deadline_text_order() {
    assert!(deadline_le("2025-06-10", "2025-06-11"));
    assert!(deadline_le("2025-06-10", "2025-06-10"));
    assert!(!deadline_le("2025-06-11", "2025-06-10"));
    assert!(deadline_le("2025", "2025-01-01"));
    assert!(!deadline_le("2025-01-01", "2025"));
    assert!(deadline_le("", ""));
}

#[test]
fn calendar_dates() {
    assert_eq!(days_in_month(2024, 2), 29);
    assert_eq!(days_in_month(2025, 2), 28);
    assert_eq!(days_in_month(1900, 2), 28);
    assert_eq!(days_in_month(2000, 2), 29);
    assert_eq!(days_in_month(2025, 4), 30);
    assert_eq!(days_in_month(2025, 12), 31);
    assert!(CalendarDate::new(2025, 2, 29).is_none());
    assert!(CalendarDate::new(2025, 0, 1).is_none());
    assert!(CalendarDate::new(2025, 6, 0).is_none());
    let a = CalendarDate::new(2024, 12, 31).unwrap();
    let b = CalendarDate::new(2025, 1, 1).unwrap();
    assert!(a.is_before(&b));
    assert!(!b.is_before(&a));
    assert!(!a.is_before(&a));
}

#[test]
fn status_names() {
    assert_eq!(Status::Accepted.name(), "ACCEPTED");
    assert_eq!(Status::Completed.name(), "COMPLETED");
    assert_eq!(Status::from_name("REJECTED"), Some(Status::Rejected));
    assert_eq!(Status::from_name("accepted"), None);
}
