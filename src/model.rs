use vstd::prelude::*;

verus! {

/// Where a task stands.
#[derive(Clone, Copy, Debug, PartialEq, Eq, Structural)]
pub enum Status {
    Accepted,
    Rejected,
    Completed,
}

pub open spec fn status_name(s: Status) -> Seq<char> {
    match s {
        Status::Accepted => "ACCEPTED"@,
        Status::Rejected => "REJECTED"@,
        Status::Completed => "COMPLETED"@,
    }
}

impl Status {
    /// The stored name of the status.
    pub fn name(&self) -> (r: &'static str)
        ensures
            r@ == status_name(*self),
    {
        match self {
            Status::Accepted => "ACCEPTED",
            Status::Rejected => "REJECTED",
            Status::Completed => "COMPLETED",
        }
    }

    /// The status whose stored name is `s`, if any.
    pub fn from_name(s: &str) -> (r: Option<Status>)
        ensures
            r matches Some(st) ==> status_name(st) == s@,
            r is None ==> forall|st: Status| status_name(st) != s@,
    {
        proof {
            reveal_strlit("ACCEPTED");
            reveal_strlit("REJECTED");
            reveal_strlit("COMPLETED");
        }
        let a = String::from_str("ACCEPTED");
        let b = String::from_str("REJECTED");
        let c = String::from_str("COMPLETED");
        let t = String::from_str(s);
        if t.eq(&a) {
            Some(Status::Accepted)
        } else if t.eq(&b) {
            Some(Status::Rejected)
        } else if t.eq(&c) {
            Some(Status::Completed)
        } else {
            proof {
                assert forall|st: Status| status_name(st) != s@ by {
                    assert(status_name(st) == a@ || status_name(st) == b@ || status_name(st)
                        == c@);
                }
            }
            None
        }
    }
}

/// A proposed piece of work. Effort is counted in tenths of an hour and the
/// deadline is an ISO `YYYY-MM-DD` text.
#[derive(Debug)]
pub struct Task {
    pub title: String,
    pub domain: String,
    pub difficulty: String,
    pub est_hours: u32,
    pub deadline: String,
    pub status: Status,
}

pub struct TaskView {
    pub title: Seq<char>,
    pub domain: Seq<char>,
    pub difficulty: Seq<char>,
    pub est_hours: nat,
    pub deadline: Seq<char>,
    pub status: Status,
}

impl View for Task {
    type V = TaskView;

    open spec fn view(&self) -> TaskView {
        TaskView {
            title: self.title@,
            domain: self.domain@,
            difficulty: self.difficulty@,
            est_hours: self.est_hours as nat,
            deadline: self.deadline@,
            status: self.status,
        }
    }
}

pub open spec fn task_views(tasks: Seq<Task>) -> Seq<TaskView> {
    tasks.map_values(|t: Task| t@)
}

impl Task {
    /// A field-for-field copy of the task.
    pub fn duplicate(&self) -> (r: Task)
        ensures
            r@ == self@,
    {
        Task {
            title: self.title.clone(),
            domain: self.domain.clone(),
            difficulty: self.difficulty.clone(),
            est_hours: self.est_hours,
            deadline: self.deadline.clone(),
            status: self.status,
        }
    }
}

/// The single shared configuration: limits in tenths of an hour and
/// reliability in percent. The weekly limit is kept but not consulted.
#[derive(Clone, Copy, Debug, PartialEq, Eq, Structural)]
pub struct UserSettings {
    pub daily_limit: u32,
    pub weekly_limit: u32,
    pub reliability: u32,
}

impl UserSettings {
    /// The settings that stand in when none are stored: 8.0 hours a day,
    /// 40.0 hours a week, reliability 80%.
    pub fn default_settings() -> (r: UserSettings)
        ensures
            r.daily_limit == 80,
            r.weekly_limit == 400,
            r.reliability == 80,
    {
        UserSettings { daily_limit: 80, weekly_limit: 400, reliability: 80 }
    }

    /// A new profile with the given limits; reliability is reset to 80%
    /// whatever it was before.
    pub fn set_profile(daily: u32, weekly: u32) -> (r: UserSettings)
        ensures
            r.daily_limit == daily,
            r.weekly_limit == weekly,
            r.reliability == 80,
    {
        UserSettings { daily_limit: daily, weekly_limit: weekly, reliability: 80 }
    }
}

} // verus!
