use dumbit::{complete_titled, delete_titled, Status, Task};

fn task(title: &str, deadline: &str, status: Status) -> Task {
    Task {
        title: title.to_string(),
        domain: "Home".to_string(),
        difficulty: "HIGH".to_string(),
        est_hours: 12,
        deadline: deadline.to_string(),
        status,
    }
}

fn sample() -> Vec<Task> {
    vec![
        task("laundry", "2025-06-10", Status::Accepted),
        task("taxes", "2025-06-11", Status::Rejected),
        task("laundry", "2025-06-12", Status::Rejected),
    ]
}

#[test]
fn complete_marks_every_task_with_the_title() {
    let mut ts = sample();
    complete_titled(&mut ts, &"laundry".to_string());
    let st: Vec<Status> = ts.iter().map(|t| t.status).collect();
    assert_eq!(st, vec![Status::Completed, Status::Rejected, Status::Completed]);
    assert_eq!(ts[2].deadline, "2025-06-12");
    assert_eq!(ts[0].est_hours, 12);
    complete_titled(&mut ts, &"nothing".to_string());
    assert_eq!(ts.len(), 3);
    assert_eq!(ts[1].status, Status::Rejected);
}

#[test]
fn delete_removes_every_task_with_the_title() {
    let ts = sample();
    let left = delete_titled(&ts, &"laundry".to_string());
    assert_eq!(left.len(), 1);
    assert_eq!(left[0].title, "taxes");
    assert_eq!(delete_titled(&ts, &"other".to_string()).len(), 3);
    assert!(delete_titled(&Vec::new(), &"x".to_string()).is_empty());
}
