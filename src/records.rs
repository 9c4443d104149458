use vstd::prelude::*;
use crate::model::{task_views, Status, Task, TaskView};

verus! {

/// The tasks of `s` whose title is not `title`, in their order.
pub open spec fn without_title(s: Seq<TaskView>, title: Seq<char>) -> Seq<TaskView>
    decreases s.len(),
{
    if s.len() == 0 {
        s
    } else {
        let rest = without_title(s.drop_last(), title);
        if s.last().title == title {
            rest
        } else {
            rest.push(s.last())
        }
    }
}

/// Marks every task titled `title` as completed; titles are not unique, so
/// all of them change. The other tasks and every other field stay as they were.
pub fn complete_titled(tasks: &mut Vec<Task>, title: &String)
    ensures
        final(tasks)@.len() == old(tasks)@.len(),
        forall|i: int|
            0 <= i < old(tasks)@.len() ==> (#[trigger] final(tasks)@[i])@ == if old(tasks)@[i].title@
                == title@ {
                TaskView { status: Status::Completed, ..old(tasks)@[i]@ }
            } else {
                old(tasks)@[i]@
            },
{
    let mut i: usize = 0;
    while i < tasks.len()
        invariant
            i <= tasks.len(),
            tasks@.len() == old(tasks)@.len(),
            forall|k: int|
                0 <= k < i ==> (#[trigger] tasks@[k])@ == if old(tasks)@[k].title@ == title@ {
                    TaskView { status: Status::Completed, ..old(tasks)@[k]@ }
                } else {
                    old(tasks)@[k]@
                },
            forall|k: int| i <= k < tasks@.len() ==> #[trigger] tasks@[k] == old(tasks)@[k],
        decreases tasks.len() - i,
    {
        if tasks[i].title.eq(title) {
            let mut t = tasks[i].duplicate();
            t.status = Status::Completed;
            tasks.set(i, t);
        }
        i = i + 1;
    }
}

/// The tasks that remain once every task titled `title` is deleted.
pub fn delete_titled(tasks: &Vec<Task>, title: &String) -> (r: Vec<Task>)
    ensures
        task_views(r@) == without_title(task_views(tasks@), title@),
{
    let mut out: Vec<Task> = Vec::new();
    let mut i: usize = 0;
    while i < tasks.len()
        invariant
            i <= tasks.len(),
            task_views(out@) == without_title(task_views(tasks@.subrange(0, i as int)), title@),
        decreases tasks.len() - i,
    {
        proof {
            assert(task_views(tasks@.subrange(0, i + 1)).drop_last() =~= task_views(
                tasks@.subrange(0, i as int),
            ));
        }
        let t = &tasks[i];
        if !t.title.eq(title) {
            let c = t.duplicate();
            let ghost before = out@;
            out.push(c);
            assert(task_views(out@) =~= task_views(before).push(c@));
        }
        i = i + 1;
    }
    assert(tasks@.subrange(0, tasks.len() as int) =~= tasks@);
    out
}

} // verus!
