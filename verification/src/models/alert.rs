use vstd::prelude::*;

use crate::clock::{new_uuid, now_micros, uuid_text};
use crate::text::owned;

use super::incident::IncidentSeverity;

verus! {

/// Triage state of an alert.
#[derive(Debug, Clone, Copy, PartialEq, Eq, Structural)]
pub enum AlertStatus {
    New,
    Acknowledged,
    Investigating,
    Resolved,
    FalsePositive,
}

/// An alert raised by detection. Times are in microseconds since the Unix
/// epoch (UTC).
#[derive(Debug, Clone)]
pub struct Alert {
    pub id: String,
    pub session_id: String,
    pub rule_id: String,
    pub title: String,
    pub description: String,
    pub severity: IncidentSeverity,
    pub status: AlertStatus,
    pub event_ids: Vec<String>,
    pub source: String,
    pub created_at: i64,
    pub acknowledged_at: Option<i64>,
    pub resolved_at: Option<i64>,
}

impl Alert {
    /// A new alert raised now with a fresh identifier, no description and
    /// no events yet.
    pub fn new(session_id: &str, rule_id: &str, title: &str, severity: IncidentSeverity, source: &str) -> (r: Alert)
        ensures
            uuid_text(r.id@),
            r.session_id@ == session_id@,
            r.rule_id@ == rule_id@,
            r.title@ == title@,
            r.description@ == Seq::<char>::empty(),
            r.severity == severity,
            r.status == AlertStatus::New,
            r.event_ids@.len() == 0,
            r.source@ == source@,
            r.created_at >= 0,
            r.acknowledged_at is None,
            r.resolved_at is None,
    {
        Alert {
            id: new_uuid(),
            session_id: owned(session_id),
            rule_id: owned(rule_id),
            title: owned(title),
            description: String::new(),
            severity,
            status: AlertStatus::New,
            event_ids: Vec::new(),
            source: owned(source),
            created_at: now_micros(),
            acknowledged_at: None,
            resolved_at: None,
        }
    }
}

} // verus!
