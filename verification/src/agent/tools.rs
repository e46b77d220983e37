//! The tools that the agent can call.

pub mod create_scheduled_task;
pub mod get_current_time;
pub mod send_message;
pub mod web_search;
