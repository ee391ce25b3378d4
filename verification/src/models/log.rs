use vstd::prelude::*;

use super::event::{EventSource, SecurityEvent};

verus! {

/// A log line derived from an event. `timestamp` is in microseconds since
/// the Unix epoch (UTC).
#[derive(Debug, Clone)]
pub struct LogEntry {
    pub id: String,
    pub session_id: String,
    pub timestamp: i64,
    pub source: EventSource,
    pub level: String,
    pub message: String,
    pub raw: String,
}

impl LogEntry {
    /// The log line of an event: `warning` for a malicious event, `info`
    /// otherwise.
    pub fn from_event(event: &SecurityEvent) -> (r: LogEntry)
        ensures
            r.id@ == event.id@,
            r.session_id@ == event.session_id@,
            r.timestamp == event.timestamp,
            r.source == event.source,
            r.level@ == (if event.is_malicious { "warning"@ } else { "info"@ }),
            r.message@ == event.message@,
            r.raw@ == event.raw_log@,
    {
        LogEntry {
            id: event.id.clone(),
            session_id: event.session_id.clone(),
            timestamp: event.timestamp,
            source: event.source,
            level: if event.is_malicious {
                String::from_str("warning")
            } else {
                String::from_str("info")
            },
            message: event.message.clone(),
            raw: event.raw_log.clone(),
        }
    }
}

} // verus!
