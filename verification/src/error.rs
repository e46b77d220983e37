//! The errors that the library reports.

use crate::text::signed_decimal;
use crate::text::signed_decimal_string;
use vstd::prelude::*;
use vstd::string::*;

verus! {

/// Why an operation of the library failed.
#[derive(Debug, Clone)]
pub enum BotError {
    /// A relation text that is none of `master`, `friend`, `stranger`.
    InvalidRelation(String),
    /// A frequency text that is neither `once` nor `daily`.
    InvalidFrequency(String),
    /// A creator text that is neither `system` nor `user`.
    InvalidCreator(String),
    /// A cron expression that the scheduler does not take.
    InvalidCron(String),
    /// The store does not show a task that it has just created.
    TaskMissingAfterCreate,
    /// The store does not show a user that it has just created.
    UserMissingAfterCreate,
    /// There is a master already.
    MasterExists,
    /// The store does not show the user who was just made master.
    UserMissingAfterPromotion,
    /// Someone who is not the master tried to change a relation.
    NotMaster,
    /// The store does not show a user whose relation was just changed.
    UserMissingAfterUpdate,
    /// No user has this id.
    UserNotFound(i64),
    /// The store does not show a user whose prompt was just set.
    UserMissingAfterPrompt,
}

impl BotError {
    /// The message of the error.
    pub open spec fn text(self) -> Seq<char> {
        match self {
            BotError::InvalidRelation(s) => "无效的用户关系类型: "@ + s@,
            BotError::InvalidFrequency(s) => "无效的任务频率: "@ + s@,
            BotError::InvalidCreator(s) => "无效的创建者类型: "@ + s@,
            BotError::InvalidCron(_) => "ParseSchedule"@,
            BotError::TaskMissingAfterCreate => "创建任务后无法查询到任务"@,
            BotError::UserMissingAfterCreate => "创建用户后无法查询到用户"@,
            BotError::MasterExists => "已存在 master 用户，无法创建新的 master"@,
            BotError::UserMissingAfterPromotion => "更新用户为 master 后无法查询到用户"@,
            BotError::NotMaster => "只有 master 用户才能修改用户关系"@,
            BotError::UserMissingAfterUpdate => "更新用户后无法查询到用户"@,
            BotError::UserNotFound(id) => "用户 ID "@ + signed_decimal(id as int) + " 不存在"@,
            BotError::UserMissingAfterPrompt => "更新自定义提示词后无法查询到用户"@,
        }
    }

    /// Writes the message of the error.
    pub fn message(&self) -> (text: String)
        ensures
            text@ == self.text(),
    {
        match self {
            BotError::InvalidRelation(s) => {
                let mut text = String::from_str("无效的用户关系类型: ");
                text.append(s.as_str());
                text
            },
            BotError::InvalidFrequency(s) => {
                let mut text = String::from_str("无效的任务频率: ");
                text.append(s.as_str());
                text
            },
            BotError::InvalidCreator(s) => {
                let mut text = String::from_str("无效的创建者类型: ");
                text.append(s.as_str());
                text
            },
            BotError::InvalidCron(_) => String::from_str("ParseSchedule"),
            BotError::TaskMissingAfterCreate => String::from_str("创建任务后无法查询到任务"),
            BotError::UserMissingAfterCreate => String::from_str("创建用户后无法查询到用户"),
            BotError::MasterExists => String::from_str("已存在 master 用户，无法创建新的 master"),
            BotError::UserMissingAfterPromotion => String::from_str(
                "更新用户为 master 后无法查询到用户",
            ),
            BotError::NotMaster => String::from_str("只有 master 用户才能修改用户关系"),
            BotError::UserMissingAfterUpdate => String::from_str("更新用户后无法查询到用户"),
            BotError::UserNotFound(id) => {
                let mut text = String::from_str("用户 ID ");
                let digits = signed_decimal_string(*id);
                text.append(digits.as_str());
                text.append(" 不存在");
                text
            },
            BotError::UserMissingAfterPrompt => String::from_str(
                "更新自定义提示词后无法查询到用户",
            ),
        }
    }
}

} // verus!
