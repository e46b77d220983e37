//! Settings of the bot, as read from its configuration file.

use vstd::prelude::*;

verus! {

/// Where the chat protocol endpoint is and how much work may be in flight.
#[derive(Debug, Clone)]
pub struct BotConfig {
    pub endpoint: String,
    pub access_token: String,
    /// Most handlers that run at the same time.
    pub max_concurrent_tasks: usize,
    /// Capacity of the inbound event queue.
    pub event_channel_capacity: usize,
    /// Capacity of the trigger queue between scheduler and actuator.
    pub agent_task_channel_capacity: usize,
}

/// Key of the search service.
#[derive(Debug, Clone)]
pub struct SearchConfig {
    pub serpapi_key: String,
}

/// Where the store is and how many connections it may open.
#[derive(Debug, Clone)]
pub struct DatabaseConfig {
    pub url: String,
    pub max_connections: u32,
}

} // verus!
