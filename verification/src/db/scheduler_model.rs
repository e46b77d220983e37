//! Scheduled reminder tasks as the store keeps them.

use crate::error::BotError;
use crate::text::str_eq;
use crate::text::text_of;
use vstd::prelude::*;
use vstd::string::*;

verus! {

/// How often a task fires: once, after which it disables itself, or on
/// every match of its cron expression.
#[derive(Debug, Clone, Copy, PartialEq, Eq, Structural)]
pub enum TaskFrequency {
    Once,
    Daily,
}

/// The frequency that the store's text `s` stands for, if any.
pub open spec fn frequency_named(s: Seq<char>) -> Option<TaskFrequency> {
    if s == "once"@ {
        Some(TaskFrequency::Once)
    } else if s == "daily"@ {
        Some(TaskFrequency::Daily)
    } else {
        None
    }
}

impl TaskFrequency {
    /// The text under which the store keeps this frequency.
    pub open spec fn name(self) -> Seq<char> {
        match self {
            TaskFrequency::Once => "once"@,
            TaskFrequency::Daily => "daily"@,
        }
    }

    pub fn as_str(&self) -> (s: &str)
        ensures
            s@ == self.name(),
    {
        match self {
            TaskFrequency::Once => "once",
            TaskFrequency::Daily => "daily",
        }
    }

    pub fn from_str(s: &str) -> (r: Result<Self, BotError>)
        ensures
            match frequency_named(s@) {
                Some(f) => r == Ok::<Self, BotError>(f),
                None => r matches Err(BotError::InvalidFrequency(t)) && t@ == s@,
            },
    {
        if str_eq(s, "once") {
            Ok(TaskFrequency::Once)
        } else if str_eq(s, "daily") {
            Ok(TaskFrequency::Daily)
        } else {
            Err(BotError::InvalidFrequency(s.to_owned()))
        }
    }
}

/// Converting a frequency to text and back gives the frequency again.
pub proof fn lemma_frequency_round_trip(f: TaskFrequency)
    ensures
        frequency_named(f.name()) == Some(f),
{
    reveal_strlit("once");
    reveal_strlit("daily");
    assert("daily"@.len() != "once"@.len());
}

/// Who created a task: the ambient generator or a user's request.
#[derive(Debug, Clone, Copy, PartialEq, Eq, Structural)]
pub enum TaskCreator {
    System,
    User,
}

/// The creator that the store's text `s` stands for, if any.
pub open spec fn creator_named(s: Seq<char>) -> Option<TaskCreator> {
    if s == "system"@ {
        Some(TaskCreator::System)
    } else if s == "user"@ {
        Some(TaskCreator::User)
    } else {
        None
    }
}

impl TaskCreator {
    /// The text under which the store keeps this creator.
    pub open spec fn name(self) -> Seq<char> {
        match self {
            TaskCreator::System => "system"@,
            TaskCreator::User => "user"@,
        }
    }

    pub fn as_str(&self) -> (s: &str)
        ensures
            s@ == self.name(),
    {
        match self {
            TaskCreator::System => "system",
            TaskCreator::User => "user",
        }
    }

    pub fn from_str(s: &str) -> (r: Result<Self, BotError>)
        ensures
            match creator_named(s@) {
                Some(c) => r == Ok::<Self, BotError>(c),
                None => r matches Err(BotError::InvalidCreator(t)) && t@ == s@,
            },
    {
        if str_eq(s, "system") {
            Ok(TaskCreator::System)
        } else if str_eq(s, "user") {
            Ok(TaskCreator::User)
        } else {
            Err(BotError::InvalidCreator(s.to_owned()))
        }
    }
}

/// Converting a creator to text and back gives the creator again.
pub proof fn lemma_creator_round_trip(c: TaskCreator)
    ensures
        creator_named(c.name()) == Some(c),
{
    reveal_strlit("system");
    reveal_strlit("user");
    assert("system"@.len() != "user"@.len());
}

/// A persisted reminder job.
#[derive(Debug, Clone)]
pub struct ScheduledTask {
    pub id: i64,
    pub frequency: TaskFrequency,
    pub cron_expr: String,
    pub target_user_id: i64,
    pub content: String,
    pub created_by: TaskCreator,
    pub enabled: bool,
    pub last_run_at: Option<String>,
    pub next_run_at: Option<String>,
    pub created_at: String,
    pub updated_at: String,
}

/// What a [`ScheduledTask`] holds, as mathematical values.
pub struct ScheduledTaskView {
    pub id: i64,
    pub frequency: TaskFrequency,
    pub cron_expr: Seq<char>,
    pub target_user_id: i64,
    pub content: Seq<char>,
    pub created_by: TaskCreator,
    pub enabled: bool,
    pub last_run_at: Option<Seq<char>>,
    pub next_run_at: Option<Seq<char>>,
    pub created_at: Seq<char>,
    pub updated_at: Seq<char>,
}

impl View for ScheduledTask {
    type V = ScheduledTaskView;

    open spec fn view(&self) -> ScheduledTaskView {
        ScheduledTaskView {
            id: self.id,
            frequency: self.frequency,
            cron_expr: self.cron_expr@,
            target_user_id: self.target_user_id,
            content: self.content@,
            created_by: self.created_by,
            enabled: self.enabled,
            last_run_at: text_of(self.last_run_at),
            next_run_at: text_of(self.next_run_at),
            created_at: self.created_at@,
            updated_at: self.updated_at@,
        }
    }
}

/// What the store needs to create a task.
#[derive(Debug, Clone)]
pub struct CreateTaskRequest {
    pub target_user_id: i64,
    pub frequency: TaskFrequency,
    pub cron_expr: String,
    pub content: String,
    pub created_by: TaskCreator,
}

/// What a [`CreateTaskRequest`] holds, as mathematical values.
pub struct CreateTaskRequestView {
    pub target_user_id: i64,
    pub frequency: TaskFrequency,
    pub cron_expr: Seq<char>,
    pub content: Seq<char>,
    pub created_by: TaskCreator,
}

impl View for CreateTaskRequest {
    type V = CreateTaskRequestView;

    open spec fn view(&self) -> CreateTaskRequestView {
        CreateTaskRequestView {
            target_user_id: self.target_user_id,
            frequency: self.frequency,
            cron_expr: self.cron_expr@,
            content: self.content@,
            created_by: self.created_by,
        }
    }
}

} // verus!
