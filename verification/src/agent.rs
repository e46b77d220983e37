//! What the scheduler hands to the agent, and how the agent is addressed.

pub mod tools;

use crate::db::model::User;
use crate::db::model::UserView;
use crate::text::signed_decimal;
use crate::text::signed_decimal_string;
use vstd::prelude::*;
use vstd::string::*;

verus! {

/// A directive of a fired job, consumed once by the actuator.
#[derive(Debug, Clone)]
pub struct AgentTask {
    pub target_user_id: i64,
    pub content: String,
}

/// What an [`AgentTask`] holds, as mathematical values.
pub struct AgentTaskView {
    pub target_user_id: i64,
    pub content: Seq<char>,
}

impl View for AgentTask {
    type V = AgentTaskView;

    open spec fn view(&self) -> AgentTaskView {
        AgentTaskView { target_user_id: self.target_user_id, content: self.content@ }
    }
}

/// How many rounds of tool calls the agent may make for one message.
pub const MAX_TOOL_DEPTH: usize = 5;

/// The line of the prompt that holds the user's own prompt, if there is
/// one.
pub open spec fn custom_prompt_line(custom_prompt: Option<Seq<char>>) -> Seq<char> {
    match custom_prompt {
        Some(p) => "- Custom Prompt: "@ + p + "\n"@,
        None => Seq::empty(),
    }
}

/// What the agent is given for `message` of `user`: who the user is, the
/// message, and the request to answer with the tool that sends messages.
pub open spec fn deal_prompt_text(user: UserView, message: Seq<char>) -> Seq<char> {
    "User Info:\n- User ID: "@ + signed_decimal(user.id as int) + "\n- Name: "@ + user.name
        + "\n- Relation: "@ + user.relation.name() + "\n"@ + custom_prompt_line(user.custom_prompt)
        + "\nUser Message: "@ + message + "\n\n"@ + "请使用 send_message 工具回复用户的消息"@
}

/// Writes what the agent is given for `message` of `user`.
pub fn deal_prompt(user: &User, message: &str) -> (prompt: String)
    ensures
        prompt@ == deal_prompt_text(user@, message@),
{
    let mut prompt = String::from_str("User Info:\n- User ID: ");
    let id = signed_decimal_string(user.id);
    prompt.append(id.as_str());
    prompt.append("\n- Name: ");
    prompt.append(user.name.as_str());
    prompt.append("\n- Relation: ");
    prompt.append(user.relation.as_str());
    prompt.append("\n");
    match &user.custom_prompt {
        Some(custom) => {
            prompt.append("- Custom Prompt: ");
            prompt.append(custom.as_str());
            prompt.append("\n");
        },
        None => {},
    }
    prompt.append("\nUser Message: ");
    prompt.append(message);
    prompt.append("\n\n");
    prompt.append("请使用 send_message 工具回复用户的消息");
    prompt
}

/// What is said to a user whose message the agent could not handle.
pub open spec fn chat_failure_text(reason: Seq<char>) -> Seq<char> {
    "AI处理消息失败: "@ + reason
}

/// Writes what is said to a user whose message the agent could not handle.
pub fn chat_failure_reply(reason: &str) -> (text: String)
    ensures
        text@ == chat_failure_text(reason@),
{
    let mut text = String::from_str("AI处理消息失败: ");
    text.append(reason);
    text
}

} // verus!
