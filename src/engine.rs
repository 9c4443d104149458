use vstd::prelude::*;
use crate::date::{local_today, parse_iso_date, parsed_iso_date, valid_ymd, ymd_before, CalendarDate};
use crate::model::{task_views, Status, Task, TaskView, UserSettings};
use crate::text::{hours_text, tenths_text};

verus! {

/// Sum of the effort of the accepted tasks due on `deadline`.
pub open spec fn load_on(tasks: Seq<TaskView>, deadline: Seq<char>) -> nat
    decreases tasks.len(),
{
    if tasks.len() == 0 {
        0
    } else {
        let t = tasks.last();
        load_on(tasks.drop_last(), deadline) + if t.status == Status::Accepted && t.deadline
            == deadline {
            t.est_hours
        } else {
            0
        }
    }
}

/// Reliability below 60% marks a user whose usable capacity shrinks by 20%.
pub open spec fn is_penalized(s: UserSettings) -> bool {
    s.reliability < 60
}

/// The effective daily limit, in fiftieths of an hour (five times its count
/// of tenths), which keeps the 20% reduction exact.
pub open spec fn effective_limit_fiftieths(s: UserSettings) -> nat {
    if is_penalized(s) {
        4 * s.daily_limit as nat
    } else {
        5 * s.daily_limit as nat
    }
}

/// The effective daily limit in tenths of an hour, to the nearest tenth.
/// Four fifths of a whole count of tenths is never halfway between two.
pub open spec fn effective_limit_rounded(s: UserSettings) -> nat {
    (effective_limit_fiftieths(s) + 2) / 5
}

pub open spec fn capacity_message(limit: nat, used: nat) -> Seq<char> {
    "Capacity full (limit "@ + tenths_text(limit) + "h, used "@ + tenths_text(used) + "h)"@
}

/// The settings in force: the stored ones, or the defaults when none are stored.
pub open spec fn settings_in_force(stored: Option<UserSettings>) -> UserSettings {
    match stored {
        Some(s) => s,
        None => UserSettings { daily_limit: 80, weekly_limit: 400, reliability: 80 },
    }
}

/// The admission rule: the decision and its reason for a task of `hours`
/// tenths due on the parsed `deadline`, given today's date, the settings in
/// force and the load already accepted for that deadline.
pub open spec fn decide(
    hours: nat,
    deadline: Option<(int, int, int)>,
    today: (int, int, int),
    s: UserSettings,
    load: nat,
) -> (bool, Seq<char>) {
    match deadline {
        None => (false, "Invalid date format"@),
        Some(d) => if ymd_before(d, today) {
            (false, "Deadline is in the past"@)
        } else if 5 * (load + hours) > effective_limit_fiftieths(s) {
            (false, capacity_message(effective_limit_rounded(s), load))
        } else {
            (true, "Approved"@)
        },
    }
}

/// Outcome of an admission request.
#[derive(Debug)]
pub struct Decision {
    pub accepted: bool,
    pub reason: String,
}

impl View for Decision {
    type V = (bool, Seq<char>);

    open spec fn view(&self) -> (bool, Seq<char>) {
        (self.accepted, self.reason@)
    }
}

/// The reason given when a deadline's capacity is exhausted.
pub fn capacity_full_reason(limit: u128, used: u128) -> (r: String)
    ensures
        r@ == capacity_message(limit as nat, used as nat),
{
    let r = String::from_str("Capacity full (limit ").concat(hours_text(limit).as_str()).concat(
        "h, used ",
    ).concat(hours_text(used).as_str()).concat("h)");
    r
}

/// Total effort of the accepted tasks whose deadline text equals `deadline`.
pub fn current_load(tasks: &Vec<Task>, deadline: &String) -> (r: u128)
    ensures
        r == load_on(task_views(tasks@), deadline@),
{
    let mut total: u128 = 0;
    let mut i: usize = 0;
    while i < tasks.len()
        invariant
            i <= tasks.len(),
            total == load_on(task_views(tasks@.subrange(0, i as int)), deadline@),
            total <= i * 0xffff_ffffu128,
        decreases tasks.len() - i,
    {
        let t = &tasks[i];
        proof {
            let pre = tasks@.subrange(0, i as int);
            let next = tasks@.subrange(0, i + 1);
            assert(task_views(next).drop_last() =~= task_views(pre));
            assert(task_views(next).last() == tasks@[i as int]@);
        }
        if t.status == Status::Accepted && t.deadline.eq(deadline) {
            assert((i + 1) * 0xffff_ffffu128 == i * 0xffff_ffffu128 + 0xffff_ffffu128)
                by (nonlinear_arith);
            total = total + t.est_hours as u128;
        }
        i = i + 1;
    }
    assert(tasks@.subrange(0, tasks.len() as int) =~= tasks@);
    total
}

/// Decides on a task of `hours` tenths whose deadline was parsed already
/// (`None` when its text named no date).
pub fn evaluate_parsed(
    hours: u32,
    deadline: Option<CalendarDate>,
    today: CalendarDate,
    settings: &UserSettings,
    current_load: u128,
) -> (r: Decision)
    ensures
        r@ == decide(
            hours as nat,
            match deadline {
                Some(d) => Some(d@),
                None => None,
            },
            today@,
            *settings,
            current_load as nat,
        ),
{
    let d = match deadline {
        Some(d) => d,
        None => {
            return Decision { accepted: false, reason: String::from_str("Invalid date format") };
        },
    };
    if d.is_before(&today) {
        return Decision { accepted: false, reason: String::from_str("Deadline is in the past") };
    }
    let limit_fiftieths: u64 = if settings.reliability < 60 {
        4 * settings.daily_limit as u64
    } else {
        5 * settings.daily_limit as u64
    };
    let limit_floor: u128 = (limit_fiftieths / 5) as u128;
    let over = hours as u128 > limit_floor || current_load > limit_floor - hours as u128;
    if over {
        let rounded: u128 = ((limit_fiftieths + 2) / 5) as u128;
        return Decision { accepted: false, reason: capacity_full_reason(rounded, current_load) };
    }
    Decision { accepted: true, reason: String::from_str("Approved") }
}

/// Decides on a task of `hours` tenths due on the date that `deadline` names.
pub fn evaluate(
    hours: u32,
    deadline: &String,
    today: CalendarDate,
    settings: &UserSettings,
    current_load: u128,
) -> (r: Decision)
    ensures
        r@ == decide(hours as nat, parsed_iso_date(deadline@), today@, *settings, current_load as nat),
{
    let parsed = parse_iso_date(deadline.as_str());
    evaluate_parsed(hours, parsed, today, settings, current_load)
}

/// Decides on a task against the stored settings (the defaults when none are
/// stored) and the load that the stored tasks already put on its deadline.
pub fn evaluate_task(
    hours: u32,
    deadline: &String,
    today: CalendarDate,
    stored: Option<UserSettings>,
    tasks: &Vec<Task>,
) -> (r: Decision)
    ensures
        r@ == decide(
            hours as nat,
            parsed_iso_date(deadline@),
            today@,
            settings_in_force(stored),
            load_on(task_views(tasks@), deadline@),
        ),
{
    let settings = match stored {
        Some(s) => s,
        None => UserSettings::default_settings(),
    };
    let load = current_load(tasks, deadline);
    evaluate(hours, deadline, today, &settings, load)
}

/// Like `evaluate_task`, on the local date of the moment of the call.
pub fn evaluate_today(
    hours: u32,
    deadline: &String,
    stored: Option<UserSettings>,
    tasks: &Vec<Task>,
) -> (r: Decision)
    ensures
        exists|today: (int, int, int)|
            valid_ymd(today) && r@ == decide(
                hours as nat,
                parsed_iso_date(deadline@),
                today,
                settings_in_force(stored),
                load_on(task_views(tasks@), deadline@),
            ),
{
    let today = local_today();
    evaluate_task(hours, deadline, today, stored, tasks)
}

} // verus!
