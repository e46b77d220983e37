//! The tool that tells the agent the time.

use vstd::prelude::*;
use vstd::string::*;

verus! {

/// What the agent passes to the tool: nothing.
#[derive(Debug, Clone)]
pub struct GetCurrentTimeArgs {}

/// What the tool answers: the local time as text, and the seconds since
/// the epoch.
#[derive(Debug, Clone)]
pub struct TimeResult {
    pub current_time: String,
    pub timestamp: i64,
}

/// Why the tool failed. It never does.
#[derive(Debug, Clone, Copy)]
pub struct TimeError;

impl TimeError {
    /// Writes the message of the error.
    pub fn message(&self) -> (text: String)
        ensures
            text@ == "Time error"@,
    {
        String::from_str("Time error")
    }
}

/// The tool.
#[derive(Debug, Clone, Copy)]
pub struct GetCurrentTime;

/// The name of the tool.
pub const NAME: &'static str = "get_current_time";

/// Calls `chrono::Local::now` and hands out the moment twice: written with
/// `format` as `%Y-%m-%d %H:%M:%S`, and as `timestamp`. Nothing is claimed
/// of either: they are what the clock and the time zone of the machine say.
#[verifier::external_body]
fn local_now() -> (now: (String, i64)) {
    let now = chrono::Local::now();
    (now.format("%Y-%m-%d %H:%M:%S").to_string(), now.timestamp())
}

impl GetCurrentTime {
    /// Reads the clock. Always succeeds.
    pub fn call(&self, _args: GetCurrentTimeArgs) -> (r: Result<TimeResult, TimeError>)
        ensures
            r is Ok,
    {
        let (current_time, timestamp) = local_now();
        Ok(time_result(current_time, timestamp))
    }
}

/// The tool's answer to a reading of the clock: the local time as it was
/// written, and the seconds since the epoch, both as they were read.
pub fn time_result(current_time: String, timestamp: i64) -> (r: TimeResult)
    ensures
        r.current_time == current_time,
        r.timestamp == timestamp,
{
    TimeResult { current_time, timestamp }
}

} // verus!
