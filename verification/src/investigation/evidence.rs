//! Evidence collection from events and analyst actions.
use vstd::prelude::*;

use crate::clock::uuid_text;
use crate::models::{Evidence, EvidenceType, SecurityEvent};
use crate::text::{has_sub, lower, owned, str_contains, str_lower};

use super::queries::{keep, malicious};

verus! {

/// The kind of evidence an event type points to, judged on its lowercased
/// text, first rule first.
pub open spec fn evidence_kind(l: Seq<char>) -> EvidenceType {
    if has_sub(l, "file"@) || has_sub(l, "registry"@) {
        EvidenceType::File
    } else if has_sub(l, "network"@) || has_sub(l, "connection"@) || has_sub(l, "smb"@) {
        EvidenceType::Network
    } else if has_sub(l, "process"@) || has_sub(l, "execution"@) || has_sub(l, "macro"@) {
        EvidenceType::Process
    } else if has_sub(l, "memory"@) || has_sub(l, "lsass"@) || has_sub(l, "dump"@) {
        EvidenceType::Memory
    } else if has_sub(l, "email"@) || has_sub(l, "phish"@) {
        EvidenceType::Email
    } else if has_sub(l, "registry"@) {
        EvidenceType::Registry
    } else {
        EvidenceType::Log
    }
}

/// The kind of evidence an event type points to.
pub fn infer_evidence_type(event_type: &str) -> (r: EvidenceType)
    ensures
        r == evidence_kind(str_lower(event_type@)),
{
    let l = lower(event_type);
    let l = l.as_str();
    if str_contains(l, "file") || str_contains(l, "registry") {
        EvidenceType::File
    } else if str_contains(l, "network") || str_contains(l, "connection") || str_contains(l, "smb") {
        EvidenceType::Network
    } else if str_contains(l, "process") || str_contains(l, "execution") || str_contains(l, "macro") {
        EvidenceType::Process
    } else if str_contains(l, "memory") || str_contains(l, "lsass") || str_contains(l, "dump") {
        EvidenceType::Memory
    } else if str_contains(l, "email") || str_contains(l, "phish") {
        EvidenceType::Email
    } else if str_contains(l, "registry") {
        EvidenceType::Registry
    } else {
        EvidenceType::Log
    }
}

/// The title of evidence collected from an event of a type.
pub open spec fn collected_title(event_type: Seq<char>) -> Seq<char> {
    "Auto-collected: "@ + event_type
}

/// The description of evidence collected from an event.
pub open spec fn collected_description(e: SecurityEvent) -> Seq<char> {
    "Evidence collected from "@ + e.event_type@ + " event on host "@ + e.host@ + ". Source: "@
        + e.source.name() + "."@
}

/// `ev` is the evidence collected from event `e` in a session.
pub open spec fn collected_from(ev: Evidence, session_id: Seq<char>, e: SecurityEvent) -> bool {
    &&& ev.session_id@ == session_id
    &&& ev.evidence_type == evidence_kind(str_lower(e.event_type@))
    &&& ev.title@ == collected_title(e.event_type@)
    &&& ev.description@ == collected_description(e)
    &&& ev.data@ == e.raw_log@
    &&& ev.source_host@ == e.host@
    &&& ev.ioc_match == e.is_malicious
}

/// Collects and enriches evidence from events and analyst actions.
pub struct EvidenceCollector;

impl EvidenceCollector {
    /// Auto-collect evidence from a malicious event: its raw log, typed by
    /// the event type, marked as an IOC match when the event is malicious.
    pub fn from_event(session_id: &str, event: &SecurityEvent) -> (r: Evidence)
        ensures
            collected_from(r, session_id@, *event),
            r.incident_id is None,
            uuid_text(r.id@),
    {
        let evidence_type = infer_evidence_type(event.event_type.as_str());
        let mut title = String::from_str("Auto-collected: ");
        title.append(event.event_type.as_str());
        let mut evidence = Evidence::new(
            session_id,
            evidence_type,
            title.as_str(),
            event.raw_log.as_str(),
            event.host.as_str(),
        );
        let mut d = String::from_str("Evidence collected from ");
        d.append(event.event_type.as_str());
        d.append(" event on host ");
        d.append(event.host.as_str());
        d.append(". Source: ");
        d.append(event.source.as_str());
        d.append(".");
        evidence.description = d;
        evidence.ioc_match = event.is_malicious;
        evidence
    }

    /// Create manual evidence from an analyst action, attached to an
    /// incident.
    pub fn manual(
        session_id: &str,
        incident_id: &str,
        evidence_type: EvidenceType,
        title: &str,
        data: &str,
        source_host: &str,
    ) -> (r: Evidence)
        ensures
            r.session_id@ == session_id@,
            r.incident_id matches Some(i) && i@ == incident_id@,
            r.evidence_type == evidence_type,
            r.title@ == title@,
            r.description@ == Seq::<char>::empty(),
            r.data@ == data@,
            r.source_host@ == source_host@,
            !r.ioc_match,
    {
        let mut e = Evidence::new(session_id, evidence_type, title, data, source_host);
        e.incident_id = Some(owned(incident_id));
        e
    }

    /// Evidence from every malicious event of a session, in event order,
    /// attached to the incident when one is given.
    pub fn collect_malicious(session_id: &str, events: &[SecurityEvent], incident_id: Option<&str>) -> (r: Vec<Evidence>)
        ensures
            r@.len() == keep(events@, malicious()).len(),
            forall|i: int|
                0 <= i < r@.len() ==> {
                    let ev = #[trigger] r@[i];
                    &&& collected_from(ev, session_id@, keep(events@, malicious())[i])
                    &&& match incident_id {
                        Some(iid) => ev.incident_id matches Some(x) && x@ == iid@,
                        None => ev.incident_id is None,
                    }
                },
    {
        let mut r: Vec<Evidence> = Vec::new();
        let mut i: usize = 0;
        while i < events.len()
            invariant
                i <= events@.len(),
                r@.len() == keep(events@.take(i as int), malicious()).len(),
                forall|j: int|
                    0 <= j < r@.len() ==> {
                        let ev = #[trigger] r@[j];
                        &&& collected_from(ev, session_id@, keep(events@.take(i as int), malicious())[j])
                        &&& match incident_id {
                            Some(iid) => ev.incident_id matches Some(x) && x@ == iid@,
                            None => ev.incident_id is None,
                        }
                    },
            decreases events.len() - i,
        {
            assert(events@.take(i + 1).drop_last() =~= events@.take(i as int));
            let e = &events[i];
            if e.is_malicious {
                let mut ev = Self::from_event(session_id, e);
                if let Some(iid) = incident_id {
                    ev.incident_id = Some(owned(iid));
                }
                r.push(ev);
            }
            i = i + 1;
        }
        assert(events@.take(events@.len() as int) =~= events@);
        r
    }
}

/// How an event type is classified as evidence, by the words its
/// lowercased text holds, earlier words taking precedence: `file` or
/// `registry` make file evidence; else `network`, `connection` or `smb`
/// network evidence; else `process`, `execution` or `macro` process
/// evidence; else `memory`, `lsass` or `dump` memory evidence; else `email`
/// or `phish` email evidence; anything else is log evidence.
pub proof fn lemma_evidence_kind_words(l: Seq<char>)
    ensures
        has_sub(l, "file"@) || has_sub(l, "registry"@) ==> evidence_kind(l) == EvidenceType::File,
        !has_sub(l, "file"@) && !has_sub(l, "registry"@) && (has_sub(l, "network"@) || has_sub(l, "connection"@)
            || has_sub(l, "smb"@)) ==> evidence_kind(l) == EvidenceType::Network,
        !has_sub(l, "file"@) && !has_sub(l, "registry"@) && !has_sub(l, "network"@) && !has_sub(l, "connection"@)
            && !has_sub(l, "smb"@) && (has_sub(l, "process"@) || has_sub(l, "execution"@) || has_sub(l, "macro"@))
            ==> evidence_kind(l) == EvidenceType::Process,
        !has_sub(l, "file"@) && !has_sub(l, "registry"@) && !has_sub(l, "network"@) && !has_sub(l, "connection"@)
            && !has_sub(l, "smb"@) && !has_sub(l, "process"@) && !has_sub(l, "execution"@) && !has_sub(l, "macro"@)
            && (has_sub(l, "memory"@) || has_sub(l, "lsass"@) || has_sub(l, "dump"@)) ==> evidence_kind(l)
            == EvidenceType::Memory,
        !has_sub(l, "file"@) && !has_sub(l, "registry"@) && !has_sub(l, "network"@) && !has_sub(l, "connection"@)
            && !has_sub(l, "smb"@) && !has_sub(l, "process"@) && !has_sub(l, "execution"@) && !has_sub(l, "macro"@)
            && !has_sub(l, "memory"@) && !has_sub(l, "lsass"@) && !has_sub(l, "dump"@) && (has_sub(l, "email"@)
            || has_sub(l, "phish"@)) ==> evidence_kind(l) == EvidenceType::Email,
        !has_sub(l, "file"@) && !has_sub(l, "registry"@) && !has_sub(l, "network"@) && !has_sub(l, "connection"@)
            && !has_sub(l, "smb"@) && !has_sub(l, "process"@) && !has_sub(l, "execution"@) && !has_sub(l, "macro"@)
            && !has_sub(l, "memory"@) && !has_sub(l, "lsass"@) && !has_sub(l, "dump"@) && !has_sub(l, "email"@)
            && !has_sub(l, "phish"@) ==> evidence_kind(l) == EvidenceType::Log,
{
}

} // verus!
