//! Admission of personal tasks against a daily capacity, and the canned
//! reports over the stored tasks.
//!
//! Effort is counted in tenths of an hour and reliability in percent, so
//! every capacity decision is exact integer arithmetic.

mod date;
mod engine;
pub mod laws;
mod model;
mod records;
mod report;
mod text;

pub use date::{days_in_month, CalendarDate};
pub use engine::{
    capacity_full_reason, current_load, evaluate, evaluate_parsed, evaluate_task, evaluate_today,
    Decision,
};
pub use model::{Status, Task, UserSettings};
pub use records::{complete_titled, delete_titled};
pub use report::{no_tasks_notice, rejected_view, task_row, today_view, week_view};
pub use text::{deadline_le, digit_text, hours_text, natural_text};
