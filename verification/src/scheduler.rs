//! Scheduled reminders: the manager of the live jobs, the ambient reminders
//! that are made anew each day, and the actuator that hands fired reminders
//! to the agent, one at a time.

pub mod actuator;
pub mod ambient;
pub mod manager;
