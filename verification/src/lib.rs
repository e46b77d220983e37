//! Core of a personal assistant bot: a bounded event dispatcher, a
//! cron-driven reminder scheduler and the actuator that serialises the
//! reminders it fires.
//!
//! The library decides and its caller acts. Whatever waits, stores or sends
//! is the caller's: it reports what happened, and the library says what to
//! do next.
//!
//! - [`bot`]: the dispatcher that bounds the handlers in flight, and the
//!   slash commands of a friend.
//! - [`scheduler`]: the live cron jobs, the ambient reminders, and the
//!   actuator.
//! - [`db`]: the records of the store and how its rows are read.
//! - [`agent`]: what the agent is given, and the tools it can call.
//! - [`config`], [`error`], [`text`]: settings, errors and text helpers.

pub mod agent;
pub mod bot;
pub mod config;
pub mod db;
pub mod error;
pub mod scheduler;
pub mod text;
