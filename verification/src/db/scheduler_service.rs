//! The part of the task store that needs no connection: how a row that a
//! query hands out becomes a task.

use crate::db::scheduler_model::creator_named;
use crate::db::scheduler_model::frequency_named;
use crate::db::scheduler_model::ScheduledTask;
use crate::db::scheduler_model::ScheduledTaskView;
use crate::db::scheduler_model::TaskCreator;
use crate::db::scheduler_model::TaskFrequency;
use crate::error::BotError;
use crate::text::text_of;
use vstd::prelude::*;
use vstd::string::*;

verus! {

/// A row of `scheduled_tasks`, column by column, as a query hands it out.
#[derive(Debug, Clone)]
pub struct TaskRow {
    pub id: i64,
    pub frequency: String,
    pub cron_expr: String,
    pub target_user_id: i64,
    pub content: String,
    pub created_by: String,
    pub enabled: bool,
    pub last_run_at: Option<String>,
    pub next_run_at: Option<String>,
    pub created_at: String,
    pub updated_at: String,
}

/// Whether the frequency and the creator of `row` are texts that the store
/// is meant to hold.
pub open spec fn row_is_valid(row: TaskRow) -> bool {
    frequency_named(row.frequency@) is Some && creator_named(row.created_by@) is Some
}

/// The task that a valid `row` stands for.
pub open spec fn task_of_row(row: TaskRow) -> ScheduledTaskView {
    ScheduledTaskView {
        id: row.id,
        frequency: frequency_named(row.frequency@).unwrap(),
        cron_expr: row.cron_expr@,
        target_user_id: row.target_user_id,
        content: row.content@,
        created_by: creator_named(row.created_by@).unwrap(),
        enabled: row.enabled,
        last_run_at: text_of(row.last_run_at),
        next_run_at: text_of(row.next_run_at),
        created_at: row.created_at@,
        updated_at: row.updated_at@,
    }
}

/// Whether `e` says what is wrong with `row`: its frequency, or else its
/// creator.
pub open spec fn is_row_error(e: BotError, row: TaskRow) -> bool {
    if frequency_named(row.frequency@) is None {
        e matches BotError::InvalidFrequency(t) && t@ == row.frequency@
    } else {
        e matches BotError::InvalidCreator(t) && t@ == row.created_by@
    }
}

/// Turns the row of a lookup into a task: no row gives no task, a valid row
/// its task, and any other row an error.
pub fn map_row_to_task(row: Option<TaskRow>) -> (r: Result<Option<ScheduledTask>, BotError>)
    ensures
        match row {
            None => r matches Ok(None),
            Some(row) => if row_is_valid(row) {
                r matches Ok(Some(task)) && task@ == task_of_row(row)
            } else {
                r matches Err(e) && is_row_error(e, row)
            },
        },
{
    match row {
        Some(row) => {
            let frequency = match TaskFrequency::from_str(row.frequency.as_str()) {
                Ok(f) => f,
                Err(e) => {
                    return Err(e);
                },
            };
            let created_by = match TaskCreator::from_str(row.created_by.as_str()) {
                Ok(c) => c,
                Err(e) => {
                    return Err(e);
                },
            };
            Ok(
                Some(
                    ScheduledTask {
                        id: row.id,
                        frequency,
                        cron_expr: row.cron_expr,
                        target_user_id: row.target_user_id,
                        content: row.content,
                        created_by,
                        enabled: row.enabled,
                        last_run_at: row.last_run_at,
                        next_run_at: row.next_run_at,
                        created_at: row.created_at,
                        updated_at: row.updated_at,
                    },
                ),
            )
        },
        None => Ok(None),
    }
}

/// Whether `i` is the place of the first row of `rows` that is not valid.
pub open spec fn is_first_invalid(rows: Seq<TaskRow>, i: int) -> bool {
    &&& 0 <= i < rows.len()
    &&& !row_is_valid(rows[i])
    &&& forall|k: int| 0 <= k < i ==> row_is_valid(#[trigger] rows[k])
}

/// Turns the rows of a query into tasks, in order. Fails on the first row
/// that is not valid, with what is wrong with it.
#[verifier::loop_isolation(false)]
pub fn map_rows_to_tasks(rows: Vec<TaskRow>) -> (r: Result<Vec<ScheduledTask>, BotError>)
    ensures
        match r {
            Ok(tasks) => {
                &&& tasks.len() == rows.len()
                &&& forall|i: int|
                    0 <= i < rows.len() ==> row_is_valid(#[trigger] rows[i]) && tasks[i]@
                        == task_of_row(rows[i])
            },
            Err(e) => exists|i: int| is_first_invalid(rows@, i) && is_row_error(e, rows@[i]),
        },
{
    let mut tasks: Vec<ScheduledTask> = Vec::new();
    let ghost all = rows@;
    for row in it: rows
        invariant
            it.seq() == all,
            tasks.len() == it.index(),
            forall|k: int|
                0 <= k < it.index() ==> row_is_valid(#[trigger] all[k]) && tasks@[k]@
                    == task_of_row(all[k]),
    {
        let ghost at = it.index() as int;
        match map_row_to_task(Some(row)) {
            Ok(Some(task)) => {
                tasks.push(task);
            },
            Ok(None) => {},
            Err(e) => {
                assert(is_first_invalid(all, at));
                return Err(e);
            },
        }
    }
    Ok(tasks)
}

/// The task that the store has just created, as a lookup by its id shows
/// it. Fails where the lookup shows nothing.
pub fn created_task(found: Option<ScheduledTask>) -> (r: Result<ScheduledTask, BotError>)
    ensures
        match found {
            Some(task) => r == Ok::<ScheduledTask, BotError>(task),
            None => r matches Err(BotError::TaskMissingAfterCreate),
        },
{
    match found {
        Some(task) => Ok(task),
        None => Err(BotError::TaskMissingAfterCreate),
    }
}

} // verus!
