use vstd::prelude::*;

use crate::clock::{new_uuid, now_micros, uuid_text};
use crate::text::owned;

verus! {

/// The kind of an evidence item.
#[derive(Debug, Clone, Copy, PartialEq, Eq, Structural)]
pub enum EvidenceType {
    Log,
    File,
    Network,
    Memory,
    Registry,
    Process,
    Email,
}

/// An item of evidence. `collected_at` is in microseconds since the Unix
/// epoch (UTC).
#[derive(Debug, Clone)]
pub struct Evidence {
    pub id: String,
    pub session_id: String,
    pub incident_id: Option<String>,
    pub evidence_type: EvidenceType,
    pub title: String,
    pub description: String,
    pub data: String,
    pub source_host: String,
    pub collected_at: i64,
    pub ioc_match: bool,
}

impl Evidence {
    /// Evidence collected now with a fresh identifier, attached to no
    /// incident, with no description and no IOC match.
    pub fn new(session_id: &str, evidence_type: EvidenceType, title: &str, data: &str, source_host: &str) -> (r: Evidence)
        ensures
            uuid_text(r.id@),
            r.session_id@ == session_id@,
            r.incident_id is None,
            r.evidence_type == evidence_type,
            r.title@ == title@,
            r.description@ == Seq::<char>::empty(),
            r.data@ == data@,
            r.source_host@ == source_host@,
            !r.ioc_match,
    {
        Evidence {
            id: new_uuid(),
            session_id: owned(session_id),
            incident_id: None,
            evidence_type,
            title: owned(title),
            description: String::new(),
            data: owned(data),
            source_host: owned(source_host),
            collected_at: now_micros(),
            ioc_match: false,
        }
    }
}

} // verus!
