//! The tool by which the agent sends messages to a user, one after the
//! other, until one of them cannot be sent.

use crate::text::decimal;
use crate::text::decimal_string;
use vstd::prelude::*;
use vstd::string::*;

verus! {

/// What the agent passes to the tool.
#[derive(Debug, Clone)]
pub struct SendMessageArgs {
    pub user_id: i64,
    pub messages: Vec<String>,
}

/// What the tool answers.
#[derive(Debug, Clone)]
pub struct SendMessageResult {
    pub success: bool,
    pub sent_count: usize,
}

/// Why the tool failed.
#[derive(Debug, Clone)]
pub struct SendMessageError(pub String);

impl SendMessageError {
    /// The message of the error.
    pub open spec fn text(self) -> Seq<char> {
        "Send message error: "@ + self.0@
    }

    /// Writes the message of the error.
    pub fn message(&self) -> (text: String)
        ensures
            text@ == self.text(),
    {
        let mut text = String::from_str("Send message error: ");
        text.append(self.0.as_str());
        text
    }
}

/// The name of the tool.
pub const NAME: &'static str = "send_message";

/// What the caller has to do next.
#[derive(Debug, Clone)]
pub enum SendStep {
    /// Send the message at this place of the list.
    Send(usize),
    /// All messages are sent: this is the tool's answer.
    Done(SendMessageResult),
    /// A message could not be sent: this is the tool's failure.
    Failed(SendMessageError),
}

/// What is reported when the message after `sent_count` sent ones failed
/// for `reason`.
pub open spec fn failure_text(sent_count: nat, reason: Seq<char>) -> Seq<char> {
    "发送第"@ + decimal(sent_count + 1) + "条消息失败: "@ + reason
}

/// The step that follows when `sent_count` of `total` messages are sent and
/// the last attempt ended as `outcome` says: the first failure ends the
/// tool, and nothing is sent after it; otherwise the next message is sent,
/// or the tool ends with the number of messages sent.
pub fn send_step(total: usize, sent_count: usize, outcome: Result<(), String>) -> (step: SendStep)
    ensures
        match outcome {
            Err(reason) => step matches SendStep::Failed(e) && e.0@ == failure_text(
                sent_count as nat,
                reason@,
            ),
            Ok(()) => if sent_count < total {
                step matches SendStep::Send(i) && i == sent_count
            } else {
                step matches SendStep::Done(r) && r.success && r.sent_count == sent_count
            },
        },
{
    match outcome {
        Err(reason) => {
            let mut text = String::from_str("发送第");
            let number = decimal_string(sent_count as u128 + 1);
            text.append(number.as_str());
            text.append("条消息失败: ");
            text.append(reason.as_str());
            SendStep::Failed(SendMessageError(text))
        },
        Ok(()) => {
            if sent_count < total {
                SendStep::Send(sent_count)
            } else {
                SendStep::Done(SendMessageResult { success: true, sent_count })
            }
        },
    }
}

} // verus!
