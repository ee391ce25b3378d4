//! The record-level rules of storage: how enumerations are written to and
//! read back from their stored names, and which records may be stored.
use vstd::prelude::*;
use vstd::string::StringSliceAdditionalSpecFns;
use vstd::utf8::encode_utf8;

use crate::models::{Alert, AlertStatus, EvidenceType, IncidentSeverity, IncidentStatus, SecurityEvent};
use crate::text::{blank, is_blank, str_eq};

pub use crate::response::ActionRecord;

verus! {

/// The stored name of an incident severity.
pub open spec fn severity_str_spec(x: IncidentSeverity) -> Seq<char> {
    match x {
        IncidentSeverity::Low => "low"@,
        IncidentSeverity::Medium => "medium"@,
        IncidentSeverity::High => "high"@,
        IncidentSeverity::Critical => "critical"@,
    }
}

/// The an incident severity a stored name denotes; an unknown name reads as `Critical`.
pub open spec fn parse_severity_spec(s: Seq<char>) -> IncidentSeverity {
    if s == "low"@ {
        IncidentSeverity::Low
    } else if s == "medium"@ {
        IncidentSeverity::Medium
    } else if s == "high"@ {
        IncidentSeverity::High
    } else {
        IncidentSeverity::Critical
    }
}

/// The stored name of an incident severity.
pub fn severity_str(x: &IncidentSeverity) -> (r: &'static str)
    ensures
        r@ == severity_str_spec(*x),
{
    match x {
        IncidentSeverity::Low => "low",
        IncidentSeverity::Medium => "medium",
        IncidentSeverity::High => "high",
        IncidentSeverity::Critical => "critical",
    }
}

/// The an incident severity a stored name denotes; an unknown name reads as `Critical`.
pub fn parse_severity(s: &str) -> (r: IncidentSeverity)
    ensures
        r == parse_severity_spec(s@),
{
    if str_eq(s, "low") {
        IncidentSeverity::Low
    } else if str_eq(s, "medium") {
        IncidentSeverity::Medium
    } else if str_eq(s, "high") {
        IncidentSeverity::High
    } else {
        IncidentSeverity::Critical
    }
}

/// Storing an incident severity and reading it back gives the same value.
pub proof fn lemma_severity_round_trip(x: IncidentSeverity)
    ensures
        parse_severity_spec(severity_str_spec(x)) == x,
{
        reveal_strlit("low");
        reveal_strlit("medium");
        reveal_strlit("high");
        reveal_strlit("critical");
        match x {
            IncidentSeverity::Low => {
                assert(parse_severity_spec("low"@) == IncidentSeverity::Low);
            },
            IncidentSeverity::Medium => {
                assert("medium"@.len() != "low"@.len());
                assert(parse_severity_spec("medium"@) == IncidentSeverity::Medium);
            },
            IncidentSeverity::High => {
                assert("high"@.len() != "low"@.len());
                assert("high"@.len() != "medium"@.len());
                assert(parse_severity_spec("high"@) == IncidentSeverity::High);
            },
            IncidentSeverity::Critical => {
                assert("critical"@.len() != "low"@.len());
                assert("critical"@.len() != "medium"@.len());
                assert("critical"@.len() != "high"@.len());
                assert(parse_severity_spec("critical"@) == IncidentSeverity::Critical);
            },
        }
}

/// The stored name of an alert status.
pub open spec fn alert_status_str_spec(x: AlertStatus) -> Seq<char> {
    match x {
        AlertStatus::New => "new"@,
        AlertStatus::Acknowledged => "acknowledged"@,
        AlertStatus::Investigating => "investigating"@,
        AlertStatus::Resolved => "resolved"@,
        AlertStatus::FalsePositive => "false_positive"@,
    }
}

/// The an alert status a stored name denotes; an unknown name reads as `New`.
pub open spec fn parse_alert_status_spec(s: Seq<char>) -> AlertStatus {
    if s == "acknowledged"@ {
        AlertStatus::Acknowledged
    } else if s == "investigating"@ {
        AlertStatus::Investigating
    } else if s == "resolved"@ {
        AlertStatus::Resolved
    } else if s == "false_positive"@ {
        AlertStatus::FalsePositive
    } else {
        AlertStatus::New
    }
}

/// The stored name of an alert status.
pub fn alert_status_str(x: &AlertStatus) -> (r: &'static str)
    ensures
        r@ == alert_status_str_spec(*x),
{
    match x {
        AlertStatus::New => "new",
        AlertStatus::Acknowledged => "acknowledged",
        AlertStatus::Investigating => "investigating",
        AlertStatus::Resolved => "resolved",
        AlertStatus::FalsePositive => "false_positive",
    }
}

/// The an alert status a stored name denotes; an unknown name reads as `New`.
pub fn parse_alert_status(s: &str) -> (r: AlertStatus)
    ensures
        r == parse_alert_status_spec(s@),
{
    if str_eq(s, "acknowledged") {
        AlertStatus::Acknowledged
    } else if str_eq(s, "investigating") {
        AlertStatus::Investigating
    } else if str_eq(s, "resolved") {
        AlertStatus::Resolved
    } else if str_eq(s, "false_positive") {
        AlertStatus::FalsePositive
    } else {
        AlertStatus::New
    }
}

/// Storing an alert status and reading it back gives the same value.
pub proof fn lemma_alert_status_round_trip(x: AlertStatus)
    ensures
        parse_alert_status_spec(alert_status_str_spec(x)) == x,
{
        reveal_strlit("new");
        reveal_strlit("acknowledged");
        reveal_strlit("investigating");
        reveal_strlit("resolved");
        reveal_strlit("false_positive");
        match x {
            AlertStatus::New => {
                assert("new"@.len() != "acknowledged"@.len());
                assert("new"@.len() != "investigating"@.len());
                assert("new"@.len() != "resolved"@.len());
                assert("new"@.len() != "false_positive"@.len());
                assert(parse_alert_status_spec("new"@) == AlertStatus::New);
            },
            AlertStatus::Acknowledged => {
                assert(parse_alert_status_spec("acknowledged"@) == AlertStatus::Acknowledged);
            },
            AlertStatus::Investigating => {
                assert("investigating"@.len() != "acknowledged"@.len());
                assert(parse_alert_status_spec("investigating"@) == AlertStatus::Investigating);
            },
            AlertStatus::Resolved => {
                assert("resolved"@.len() != "acknowledged"@.len());
                assert("resolved"@.len() != "investigating"@.len());
                assert(parse_alert_status_spec("resolved"@) == AlertStatus::Resolved);
            },
            AlertStatus::FalsePositive => {
                assert("false_positive"@.len() != "acknowledged"@.len());
                assert("false_positive"@.len() != "investigating"@.len());
                assert("false_positive"@.len() != "resolved"@.len());
                assert(parse_alert_status_spec("false_positive"@) == AlertStatus::FalsePositive);
            },
        }
}

/// The stored name of an incident status.
pub open spec fn incident_status_str_spec(x: IncidentStatus) -> Seq<char> {
    match x {
        IncidentStatus::New => "new"@,
        IncidentStatus::Investigating => "investigating"@,
        IncidentStatus::Contained => "contained"@,
        IncidentStatus::Eradicated => "eradicated"@,
        IncidentStatus::Recovered => "recovered"@,
        IncidentStatus::Closed => "closed"@,
    }
}

/// The an incident status a stored name denotes; an unknown name reads as `New`.
pub open spec fn parse_incident_status_spec(s: Seq<char>) -> IncidentStatus {
    if s == "investigating"@ {
        IncidentStatus::Investigating
    } else if s == "contained"@ {
        IncidentStatus::Contained
    } else if s == "eradicated"@ {
        IncidentStatus::Eradicated
    } else if s == "recovered"@ {
        IncidentStatus::Recovered
    } else if s == "closed"@ {
        IncidentStatus::Closed
    } else {
        IncidentStatus::New
    }
}

/// The stored name of an incident status.
pub fn incident_status_str(x: &IncidentStatus) -> (r: &'static str)
    ensures
        r@ == incident_status_str_spec(*x),
{
    match x {
        IncidentStatus::New => "new",
        IncidentStatus::Investigating => "investigating",
        IncidentStatus::Contained => "contained",
        IncidentStatus::Eradicated => "eradicated",
        IncidentStatus::Recovered => "recovered",
        IncidentStatus::Closed => "closed",
    }
}

/// The an incident status a stored name denotes; an unknown name reads as `New`.
pub fn parse_incident_status(s: &str) -> (r: IncidentStatus)
    ensures
        r == parse_incident_status_spec(s@),
{
    if str_eq(s, "investigating") {
        IncidentStatus::Investigating
    } else if str_eq(s, "contained") {
        IncidentStatus::Contained
    } else if str_eq(s, "eradicated") {
        IncidentStatus::Eradicated
    } else if str_eq(s, "recovered") {
        IncidentStatus::Recovered
    } else if str_eq(s, "closed") {
        IncidentStatus::Closed
    } else {
        IncidentStatus::New
    }
}

/// Storing an incident status and reading it back gives the same value.
pub proof fn lemma_incident_status_round_trip(x: IncidentStatus)
    ensures
        parse_incident_status_spec(incident_status_str_spec(x)) == x,
{
        reveal_strlit("new");
        reveal_strlit("investigating");
        reveal_strlit("contained");
        reveal_strlit("eradicated");
        reveal_strlit("recovered");
        reveal_strlit("closed");
        match x {
            IncidentStatus::New => {
                assert("new"@.len() != "investigating"@.len());
                assert("new"@.len() != "contained"@.len());
                assert("new"@.len() != "eradicated"@.len());
                assert("new"@.len() != "recovered"@.len());
                assert("new"@.len() != "closed"@.len());
                assert(parse_incident_status_spec("new"@) == IncidentStatus::New);
            },
            IncidentStatus::Investigating => {
                assert(parse_incident_status_spec("investigating"@) == IncidentStatus::Investigating);
            },
            IncidentStatus::Contained => {
                assert("contained"@.len() != "investigating"@.len());
                assert(parse_incident_status_spec("contained"@) == IncidentStatus::Contained);
            },
            IncidentStatus::Eradicated => {
                assert("eradicated"@.len() != "investigating"@.len());
                assert("eradicated"@.len() != "contained"@.len());
                assert(parse_incident_status_spec("eradicated"@) == IncidentStatus::Eradicated);
            },
            IncidentStatus::Recovered => {
                assert("recovered"@.len() != "investigating"@.len());
                assert("recovered"@[0] != "contained"@[0]);
                assert("recovered"@.len() != "eradicated"@.len());
                assert(parse_incident_status_spec("recovered"@) == IncidentStatus::Recovered);
            },
            IncidentStatus::Closed => {
                assert("closed"@.len() != "investigating"@.len());
                assert("closed"@.len() != "contained"@.len());
                assert("closed"@.len() != "eradicated"@.len());
                assert("closed"@.len() != "recovered"@.len());
                assert(parse_incident_status_spec("closed"@) == IncidentStatus::Closed);
            },
        }
}

/// The stored name of an evidence type.
pub open spec fn evidence_type_str_spec(x: EvidenceType) -> Seq<char> {
    match x {
        EvidenceType::Log => "log"@,
        EvidenceType::File => "file"@,
        EvidenceType::Network => "network"@,
        EvidenceType::Memory => "memory"@,
        EvidenceType::Registry => "registry"@,
        EvidenceType::Process => "process"@,
        EvidenceType::Email => "email"@,
    }
}

/// The an evidence type a stored name denotes; an unknown name reads as `Log`.
pub open spec fn parse_evidence_type_spec(s: Seq<char>) -> EvidenceType {
    if s == "file"@ {
        EvidenceType::File
    } else if s == "network"@ {
        EvidenceType::Network
    } else if s == "memory"@ {
        EvidenceType::Memory
    } else if s == "registry"@ {
        EvidenceType::Registry
    } else if s == "process"@ {
        EvidenceType::Process
    } else if s == "email"@ {
        EvidenceType::Email
    } else {
        EvidenceType::Log
    }
}

/// The stored name of an evidence type.
pub fn evidence_type_str(x: &EvidenceType) -> (r: &'static str)
    ensures
        r@ == evidence_type_str_spec(*x),
{
    match x {
        EvidenceType::Log => "log",
        EvidenceType::File => "file",
        EvidenceType::Network => "network",
        EvidenceType::Memory => "memory",
        EvidenceType::Registry => "registry",
        EvidenceType::Process => "process",
        EvidenceType::Email => "email",
    }
}

/// The an evidence type a stored name denotes; an unknown name reads as `Log`.
pub fn parse_evidence_type(s: &str) -> (r: EvidenceType)
    ensures
        r == parse_evidence_type_spec(s@),
{
    if str_eq(s, "file") {
        EvidenceType::File
    } else if str_eq(s, "network") {
        EvidenceType::Network
    } else if str_eq(s, "memory") {
        EvidenceType::Memory
    } else if str_eq(s, "registry") {
        EvidenceType::Registry
    } else if str_eq(s, "process") {
        EvidenceType::Process
    } else if str_eq(s, "email") {
        EvidenceType::Email
    } else {
        EvidenceType::Log
    }
}

/// Storing an evidence type and reading it back gives the same value.
pub proof fn lemma_evidence_type_round_trip(x: EvidenceType)
    ensures
        parse_evidence_type_spec(evidence_type_str_spec(x)) == x,
{
        reveal_strlit("log");
        reveal_strlit("file");
        reveal_strlit("network");
        reveal_strlit("memory");
        reveal_strlit("registry");
        reveal_strlit("process");
        reveal_strlit("email");
        match x {
            EvidenceType::Log => {
                assert("log"@.len() != "file"@.len());
                assert("log"@.len() != "network"@.len());
                assert("log"@.len() != "memory"@.len());
                assert("log"@.len() != "registry"@.len());
                assert("log"@.len() != "process"@.len());
                assert("log"@.len() != "email"@.len());
                assert(parse_evidence_type_spec("log"@) == EvidenceType::Log);
            },
            EvidenceType::File => {
                assert(parse_evidence_type_spec("file"@) == EvidenceType::File);
            },
            EvidenceType::Network => {
                assert("network"@.len() != "file"@.len());
                assert(parse_evidence_type_spec("network"@) == EvidenceType::Network);
            },
            EvidenceType::Memory => {
                assert("memory"@.len() != "file"@.len());
                assert("memory"@.len() != "network"@.len());
                assert(parse_evidence_type_spec("memory"@) == EvidenceType::Memory);
            },
            EvidenceType::Registry => {
                assert("registry"@.len() != "file"@.len());
                assert("registry"@.len() != "network"@.len());
                assert("registry"@.len() != "memory"@.len());
                assert(parse_evidence_type_spec("registry"@) == EvidenceType::Registry);
            },
            EvidenceType::Process => {
                assert("process"@.len() != "file"@.len());
                assert("process"@[0] != "network"@[0]);
                assert("process"@.len() != "memory"@.len());
                assert("process"@.len() != "registry"@.len());
                assert(parse_evidence_type_spec("process"@) == EvidenceType::Process);
            },
            EvidenceType::Email => {
                assert("email"@.len() != "file"@.len());
                assert("email"@.len() != "network"@.len());
                assert("email"@.len() != "memory"@.len());
                assert("email"@.len() != "registry"@.len());
                assert("email"@.len() != "process"@.len());
                assert(parse_evidence_type_spec("email"@) == EvidenceType::Email);
            },
        }
}

/// Why a new session may not be stored, if it may not: blank id, blank
/// scenario, blank analyst name, or an analyst name over 100 bytes, checked
/// in that order.
pub open spec fn session_refusal(id: Seq<char>, scenario_id: Seq<char>, analyst_name: Seq<char>) -> Option<Seq<char>> {
    if blank(id) {
        Some("Session ID cannot be empty"@)
    } else if blank(scenario_id) {
        Some("Scenario ID cannot be empty"@)
    } else if blank(analyst_name) {
        Some("Analyst name cannot be empty"@)
    } else if encode_utf8(analyst_name).len() > 100 {
        Some("Analyst name too long (max 100 characters)"@)
    } else {
        None
    }
}

/// Checks a new session before it is stored.
pub fn validate_new_session(id: &str, scenario_id: &str, analyst_name: &str) -> (r: Result<(), String>)
    ensures
        match session_refusal(id@, scenario_id@, analyst_name@) {
            Some(m) => r matches Err(e) && e@ == m,
            None => r is Ok,
        },
{
    if is_blank(id) {
        return Err(String::from_str("Session ID cannot be empty"));
    }
    if is_blank(scenario_id) {
        return Err(String::from_str("Scenario ID cannot be empty"));
    }
    if is_blank(analyst_name) {
        return Err(String::from_str("Analyst name cannot be empty"));
    }
    assert(analyst_name.spec_bytes() == encode_utf8(analyst_name@));
    if analyst_name.as_bytes().len() > 100 {
        return Err(String::from_str("Analyst name too long (max 100 characters)"));
    }
    Ok(())
}

/// Why an event may not be stored, if it may not.
pub open spec fn event_refusal(e: SecurityEvent) -> Option<Seq<char>> {
    if blank(e.id@) {
        Some("Event ID cannot be empty"@)
    } else if blank(e.session_id@) {
        Some("Session ID cannot be empty"@)
    } else if blank(e.source.name()) {
        Some("Event source cannot be empty"@)
    } else if blank(e.event_type@) {
        Some("Event type cannot be empty"@)
    } else if blank(e.message@) {
        Some("Event message cannot be empty"@)
    } else {
        None
    }
}

/// Checks an event before it is stored.
pub fn validate_event(event: &SecurityEvent) -> (r: Result<(), String>)
    ensures
        match event_refusal(*event) {
            Some(m) => r matches Err(e) && e@ == m,
            None => r is Ok,
        },
{
    if is_blank(event.id.as_str()) {
        return Err(String::from_str("Event ID cannot be empty"));
    }
    if is_blank(event.session_id.as_str()) {
        return Err(String::from_str("Session ID cannot be empty"));
    }
    if is_blank(event.source.as_str()) {
        return Err(String::from_str("Event source cannot be empty"));
    }
    if is_blank(event.event_type.as_str()) {
        return Err(String::from_str("Event type cannot be empty"));
    }
    if is_blank(event.message.as_str()) {
        return Err(String::from_str("Event message cannot be empty"));
    }
    Ok(())
}

/// Why an alert may not be stored, if it may not.
pub open spec fn alert_refusal(a: Alert) -> Option<Seq<char>> {
    if blank(a.id@) {
        Some("Alert ID cannot be empty"@)
    } else if blank(a.session_id@) {
        Some("Session ID cannot be empty"@)
    } else if blank(a.rule_id@) {
        Some("Rule ID cannot be empty"@)
    } else if blank(a.title@) {
        Some("Alert title cannot be empty"@)
    } else {
        None
    }
}

/// Checks an alert before it is stored.
pub fn validate_alert(alert: &Alert) -> (r: Result<(), String>)
    ensures
        match alert_refusal(*alert) {
            Some(m) => r matches Err(e) && e@ == m,
            None => r is Ok,
        },
{
    if is_blank(alert.id.as_str()) {
        return Err(String::from_str("Alert ID cannot be empty"));
    }
    if is_blank(alert.session_id.as_str()) {
        return Err(String::from_str("Session ID cannot be empty"));
    }
    if is_blank(alert.rule_id.as_str()) {
        return Err(String::from_str("Rule ID cannot be empty"));
    }
    if is_blank(alert.title.as_str()) {
        return Err(String::from_str("Alert title cannot be empty"));
    }
    Ok(())
}

} // verus!
