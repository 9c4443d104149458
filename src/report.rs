use vstd::prelude::*;
use vstd::seq_lib::{to_multiset_build, to_multiset_insert};
use crate::model::{status_name, task_views, Status, Task, TaskView};
use crate::text::{deadline_le, hours_text, lemma_text_le_total, lemma_text_le_transitive, tenths_text, text_le};

verus! {

/// The tasks of `s` that are accepted and due on `day`, in their order.
pub open spec fn accepted_due(s: Seq<TaskView>, day: Seq<char>) -> Seq<TaskView>
    decreases s.len(),
{
    if s.len() == 0 {
        s
    } else {
        let rest = accepted_due(s.drop_last(), day);
        if s.last().status == Status::Accepted && s.last().deadline == day {
            rest.push(s.last())
        } else {
            rest
        }
    }
}

/// The tasks of `s` that have status `st`, in their order.
pub open spec fn with_status(s: Seq<TaskView>, st: Status) -> Seq<TaskView>
    decreases s.len(),
{
    if s.len() == 0 {
        s
    } else {
        let rest = with_status(s.drop_last(), st);
        if s.last().status == st {
            rest.push(s.last())
        } else {
            rest
        }
    }
}

/// Deadlines never decrease along `s`.
pub open spec fn sorted_by_deadline(s: Seq<TaskView>) -> bool {
    forall|i: int, j: int| 0 <= i < j < s.len() ==> text_le(s[i].deadline, s[j].deadline)
}

proof fn lemma_views_step(tasks: Seq<Task>, i: int)
    requires
        0 <= i < tasks.len(),
    ensures
        task_views(tasks.subrange(0, i + 1)).drop_last() == task_views(tasks.subrange(0, i)),
        task_views(tasks.subrange(0, i + 1)).last() == tasks[i]@,
        task_views(tasks.subrange(0, i + 1)).len() == i + 1,
{
    assert(task_views(tasks.subrange(0, i + 1)).drop_last() =~= task_views(tasks.subrange(0, i)));
}

/// The tasks due on `today` (an ISO date text) that are accepted.
pub fn today_view(tasks: &Vec<Task>, today: &String) -> (r: Vec<Task>)
    ensures
        task_views(r@) == accepted_due(task_views(tasks@), today@),
{
    let mut out: Vec<Task> = Vec::new();
    let mut i: usize = 0;
    while i < tasks.len()
        invariant
            i <= tasks.len(),
            task_views(out@) == accepted_due(task_views(tasks@.subrange(0, i as int)), today@),
        decreases tasks.len() - i,
    {
        proof {
            lemma_views_step(tasks@, i as int);
        }
        let t = &tasks[i];
        if t.status == Status::Accepted && t.deadline.eq(today) {
            let c = t.duplicate();
            let ghost before = out@;
            out.push(c);
            assert(task_views(out@) =~= task_views(before).push(c@));
        }
        i = i + 1;
    }
    assert(tasks@.subrange(0, tasks.len() as int) =~= tasks@);
    out
}

/// The tasks that were rejected.
pub fn rejected_view(tasks: &Vec<Task>) -> (r: Vec<Task>)
    ensures
        task_views(r@) == with_status(task_views(tasks@), Status::Rejected),
{
    let mut out: Vec<Task> = Vec::new();
    let mut i: usize = 0;
    while i < tasks.len()
        invariant
            i <= tasks.len(),
            task_views(out@) == with_status(
                task_views(tasks@.subrange(0, i as int)),
                Status::Rejected,
            ),
        decreases tasks.len() - i,
    {
        proof {
            lemma_views_step(tasks@, i as int);
        }
        let t = &tasks[i];
        if t.status == Status::Rejected {
            let c = t.duplicate();
            let ghost before = out@;
            out.push(c);
            assert(task_views(out@) =~= task_views(before).push(c@));
        }
        i = i + 1;
    }
    assert(tasks@.subrange(0, tasks.len() as int) =~= tasks@);
    out
}

/// All accepted tasks, ordered by deadline text.
pub fn week_view(tasks: &Vec<Task>) -> (r: Vec<Task>)
    ensures
        sorted_by_deadline(task_views(r@)),
        task_views(r@).to_multiset() == with_status(
            task_views(tasks@),
            Status::Accepted,
        ).to_multiset(),
{
    let mut out: Vec<Task> = Vec::new();
    let mut i: usize = 0;
    assert(task_views(out@) =~= with_status(
        task_views(tasks@.subrange(0, 0)),
        Status::Accepted,
    ));
    while i < tasks.len()
        invariant
            i <= tasks.len(),
            sorted_by_deadline(task_views(out@)),
            task_views(out@).to_multiset() == with_status(
                task_views(tasks@.subrange(0, i as int)),
                Status::Accepted,
            ).to_multiset(),
        decreases tasks.len() - i,
    {
        proof {
            lemma_views_step(tasks@, i as int);
        }
        let t = &tasks[i];
        if t.status == Status::Accepted {
            let mut j: usize = 0;
            while j < out.len() && deadline_le(out[j].deadline.as_str(), t.deadline.as_str())
                invariant
                    j <= out.len(),
                    forall|k: int| 0 <= k < j ==> text_le(out@[k].deadline@, t.deadline@),
                decreases out.len() - j,
            {
                j = j + 1;
            }
            let c = t.duplicate();
            let ghost before = task_views(out@);
            proof {
                if j < out.len() {
                    lemma_text_le_total(t.deadline@, out@[j as int].deadline@);
                    assert forall|k: int| j < k < out.len() implies text_le(
                        t.deadline@,
                        out@[k].deadline@,
                    ) by {
                        assert(text_le(before[j as int].deadline, before[k].deadline));
                        lemma_text_le_transitive(
                            t.deadline@,
                            out@[j as int].deadline@,
                            out@[k].deadline@,
                        );
                    }
                }
            }
            out.insert(j, c);
            proof {
                let now = task_views(out@);
                assert(now =~= before.insert(j as int, c@));
                let prev = with_status(task_views(tasks@.subrange(0, i as int)), Status::Accepted);
                assert(with_status(task_views(tasks@.subrange(0, i + 1)), Status::Accepted)
                    == prev.push(c@));
                to_multiset_insert(before, j as int, c@);
                to_multiset_build(prev, c@);
                assert forall|a: int, b: int| 0 <= a < b < now.len() implies text_le(
                    now[a].deadline,
                    now[b].deadline,
                ) by {
                    if b < j {
                    } else if b == j {
                    } else if a < j {
                        assert(text_le(before[a].deadline, t.deadline@));
                        assert(text_le(t.deadline@, before[b - 1].deadline));
                        lemma_text_le_transitive(
                            before[a].deadline,
                            t.deadline@,
                            before[b - 1].deadline,
                        );
                    } else if a == j {
                    } else {
                        assert(text_le(before[a - 1].deadline, before[b - 1].deadline));
                    }
                }
            }
        }
        i = i + 1;
    }
    assert(tasks@.subrange(0, tasks.len() as int) =~= tasks@);
    out
}

/// The four cells that show a task: deadline, title, hours with one
/// decimal place, status.
pub fn task_row(t: &Task) -> (r: Vec<String>)
    ensures
        r@.len() == 4,
        r@[0]@ == t.deadline@,
        r@[1]@ == t.title@,
        r@[2]@ == tenths_text(t.est_hours as nat),
        r@[3]@ == status_name(t.status),
{
    let mut r: Vec<String> = Vec::new();
    r.push(t.deadline.clone());
    r.push(t.title.clone());
    r.push(hours_text(t.est_hours as u128));
    r.push(String::from_str(t.status.name()));
    r
}

/// The notice shown in place of an empty report.
pub fn no_tasks_notice(title: &str) -> (r: String)
    ensures
        r@ == title@ + ": No tasks"@,
{
    String::from_str(title).concat(": No tasks")
}

} // verus!
