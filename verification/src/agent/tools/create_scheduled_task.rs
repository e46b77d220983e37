//! The tool by which the agent creates a reminder.

use crate::db::scheduler_model::frequency_named;
use crate::db::scheduler_model::CreateTaskRequest;
use crate::db::scheduler_model::CreateTaskRequestView;
use crate::db::scheduler_model::TaskCreator;
use crate::db::scheduler_model::TaskFrequency;
use crate::error::BotError;
use vstd::prelude::*;
use vstd::string::*;

verus! {

/// What the agent passes to the tool.
#[derive(Debug, Clone)]
pub struct CreateScheduledTaskArgs {
    pub user_id: i64,
    pub content: String,
    pub cron_expr: String,
    pub frequency: String,
}

/// What the tool answers.
#[derive(Debug, Clone)]
pub struct CreateScheduledTaskResult {
    pub success: bool,
    pub task_id: i64,
    pub message: String,
}

/// Why the tool failed.
#[derive(Debug, Clone)]
pub struct CreateScheduledTaskError(pub String);

impl CreateScheduledTaskError {
    /// The message of the error.
    pub open spec fn text(self) -> Seq<char> {
        "Create scheduled task error: "@ + self.0@
    }

    /// Writes the message of the error.
    pub fn message(&self) -> (text: String)
        ensures
            text@ == self.text(),
    {
        let mut text = String::from_str("Create scheduled task error: ");
        text.append(self.0.as_str());
        text
    }
}

/// The name of the tool.
pub const NAME: &'static str = "create_scheduled_task";

/// The request that `args` make of the scheduler, where their frequency is
/// `frequency`: a task of the user's own.
pub open spec fn request_of(
    args: CreateScheduledTaskArgs,
    frequency: TaskFrequency,
) -> CreateTaskRequestView {
    CreateTaskRequestView {
        target_user_id: args.user_id,
        frequency,
        cron_expr: args.cron_expr@,
        content: args.content@,
        created_by: TaskCreator::User,
    }
}

/// How a frequency is shown in the tool's answer.
pub open spec fn frequency_label(frequency: TaskFrequency) -> Seq<char> {
    match frequency {
        TaskFrequency::Once => "Once"@,
        TaskFrequency::Daily => "Daily"@,
    }
}

/// The request that `args` make of the scheduler. Fails where the frequency
/// is neither `once` nor `daily`, with the message of that error.
pub fn build_request(args: &CreateScheduledTaskArgs) -> (r: Result<
    CreateTaskRequest,
    CreateScheduledTaskError,
>)
    ensures
        match frequency_named(args.frequency@) {
            Some(f) => r matches Ok(req) && req@ == request_of(*args, f),
            None => r matches Err(e) && e.0@ == (BotError::InvalidFrequency(args.frequency)).text(),
        },
{
    let frequency = match TaskFrequency::from_str(args.frequency.as_str()) {
        Ok(f) => f,
        Err(e) => {
            return Err(CreateScheduledTaskError(e.message()));
        },
    };
    Ok(
        CreateTaskRequest {
            target_user_id: args.user_id,
            frequency,
            cron_expr: args.cron_expr.clone(),
            content: args.content.clone(),
            created_by: TaskCreator::User,
        },
    )
}

/// The tool's answer once the task `task_id` is created and scheduled.
pub fn created(task_id: i64, frequency: TaskFrequency) -> (r: CreateScheduledTaskResult)
    ensures
        r.success,
        r.task_id == task_id,
        r.message@ == "已创建定时任务，频率："@ + frequency_label(frequency),
{
    let mut message = String::from_str("已创建定时任务，频率：");
    match frequency {
        TaskFrequency::Once => message.append("Once"),
        TaskFrequency::Daily => message.append("Daily"),
    }
    CreateScheduledTaskResult { success: true, task_id, message }
}

/// The tool's failure where the scheduler refused the task for `reason`.
pub fn refused(reason: &BotError) -> (e: CreateScheduledTaskError)
    ensures
        e.0@ == reason.text(),
{
    CreateScheduledTaskError(reason.message())
}

} // verus!
