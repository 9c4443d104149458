use vstd::prelude::*;
use crate::date::{valid_ymd, ymd_before};
use crate::engine::{decide, effective_limit_fiftieths, load_on, settings_in_force};
use crate::model::{Status, TaskView, UserSettings};
use crate::report::{accepted_due, with_status};

verus! {

/// With the default settings and nothing yet accepted for the day, a task of
/// positive effort due today or later is accepted exactly when it takes at
/// most 8.0 hours.
pub proof fn lemma_default_capacity(hours: nat, deadline: (int, int, int), today: (int, int, int))
    requires
        hours > 0,
        valid_ymd(deadline),
        valid_ymd(today),
        !ymd_before(deadline, today),
    ensures
        decide(hours, Some(deadline), today, settings_in_force(None), 0).0 <==> hours <= 80,
{
}

/// Reliability below 60% shrinks the effective limit to exactly 80% of the
/// daily limit; otherwise the daily limit applies in full.
pub proof fn lemma_reliability_penalty(
    hours: nat,
    deadline: (int, int, int),
    today: (int, int, int),
    s: UserSettings,
    load: nat,
)
    requires
        !ymd_before(deadline, today),
    ensures
        s.reliability < 60 ==> 5 * effective_limit_fiftieths(s) == 4 * (5 * s.daily_limit),
        s.reliability >= 60 ==> effective_limit_fiftieths(s) == 5 * s.daily_limit,
        s.reliability < 60 ==> (decide(hours, Some(deadline), today, s, load).0 <==> 5 * (load
            + hours) <= 4 * s.daily_limit),
        s.reliability >= 60 ==> (decide(hours, Some(deadline), today, s, load).0 <==> load
            + hours <= s.daily_limit),
{
}

/// A deadline equal to today is not in the past: the decision rests on
/// capacity alone, as it would for any later day.
pub proof fn lemma_deadline_today_allowed(
    hours: nat,
    today: (int, int, int),
    later: (int, int, int),
    s: UserSettings,
    load: nat,
)
    requires
        !ymd_before(later, today),
    ensures
        decide(hours, Some(today), today, s, load) == decide(hours, Some(later), today, s, load),
        decide(hours, Some(today), today, s, load).0 <==> 5 * (load + hours)
            <= effective_limit_fiftieths(s),
{
}

/// A deadline before today is rejected as past, whatever the effort, the
/// settings and the load.
pub proof fn lemma_past_deadline_rejected(
    hours: nat,
    deadline: (int, int, int),
    today: (int, int, int),
    s: UserSettings,
    load: nat,
)
    requires
        ymd_before(deadline, today),
    ensures
        decide(hours, Some(deadline), today, s, load) == (false, "Deadline is in the past"@),
{
}

/// A deadline text that names no date is rejected as malformed before any
/// capacity is looked at: the settings and the load make no difference.
pub proof fn lemma_invalid_date_rejected(
    hours: nat,
    today: (int, int, int),
    s: UserSettings,
    load: nat,
)
    ensures
        decide(hours, None, today, s, load) == (false, "Invalid date format"@),
{
}

/// Only accepted tasks due on exactly the same deadline text add to the load.
pub proof fn lemma_load_counts_only_accepted_same_day(
    tasks: Seq<TaskView>,
    t: TaskView,
    deadline: Seq<char>,
)
    ensures
        t.status == Status::Accepted && t.deadline == deadline ==> load_on(tasks.push(t), deadline)
            == load_on(tasks, deadline) + t.est_hours,
        t.status != Status::Accepted || t.deadline != deadline ==> load_on(tasks.push(t), deadline)
            == load_on(tasks, deadline),
{
    assert(tasks.push(t).drop_last() =~= tasks);
}

/// Every task of the day's report is accepted and due that day; every task
/// of a status report has that status.
pub proof fn lemma_report_members(tasks: Seq<TaskView>, day: Seq<char>, st: Status)
    ensures
        forall|i: int|
            0 <= i < accepted_due(tasks, day).len() ==> (#[trigger] accepted_due(tasks, day)[i]).status
                == Status::Accepted && accepted_due(tasks, day)[i].deadline == day,
        forall|i: int|
            0 <= i < with_status(tasks, st).len() ==> (#[trigger] with_status(tasks, st)[i]).status
                == st,
    decreases tasks.len(),
{
    if tasks.len() > 0 {
        lemma_report_members(tasks.drop_last(), day, st);
    }
}

} // verus!
