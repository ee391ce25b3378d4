//! The API's request bodies and the checks and decisions the handlers make
//! on them before any storage is touched.
use vstd::prelude::*;
use vstd::string::StringSliceAdditionalSpecFns;
use vstd::utf8::encode_utf8;

use crate::clock::{new_uuid, now_micros, rfc3339, rfc3339_text, uuid_text};
use crate::models::{Alert, AlertStatus, EventSource, IncidentSeverity, IncidentStatus, SecurityEvent};
use crate::response::ExecuteActionRequest;
use crate::text::{blank, copy_opt, is_blank, owned, str_eq, str_lower};

use super::errors::{is_bad_request, ApiError};

verus! {

#[derive(Debug, Clone)]
pub struct CreateSessionRequest {
    pub scenario_id: String,
    pub analyst_name: String,
}

#[derive(Debug, Clone)]
pub struct UpdateAlertRequest {
    pub status: String,
}

#[derive(Debug, Clone)]
pub struct CreateIncidentRequest {
    pub title: String,
    pub severity: String,
    pub description: Option<String>,
    pub scenario_id: Option<String>,
}

#[derive(Debug, Clone)]
pub struct UpdateIncidentRequest {
    pub status: String,
}

#[derive(Debug, Clone)]
pub struct LoginRequest {
    pub username: String,
    pub password: String,
    pub totp_code: Option<String>,
}

#[derive(Debug, Clone)]
pub struct Setup2FARequest {
    pub username: String,
}

#[derive(Debug, Clone)]
pub struct Enable2FARequest {
    pub username: String,
    pub code: String,
}

#[derive(Debug, Clone)]
pub struct RegisterRequest {
    pub username: String,
    pub password: String,
    pub role: Option<String>,
}

#[derive(Debug, Clone)]
pub struct LogIngestRequest {
    pub session_id: Option<String>,
    pub source: String,
    pub event_type: String,
    pub message: String,
    pub host: String,
    pub source_ip: Option<String>,
    pub destination_ip: Option<String>,
    pub user_name: Option<String>,
    pub raw_log: Option<String>,
    pub is_malicious: Option<bool>,
}

#[derive(Debug, Clone)]
pub struct CreateCustomScenarioRequest {
    pub id: String,
    pub name: String,
    pub difficulty: String,
    pub category: String,
    pub description: String,
    pub objective: String,
    pub time_limit_secs: u64,
}

/// The length of a text in UTF-8 bytes (what `str::len` counts).
pub open spec fn byte_len(s: Seq<char>) -> int {
    encode_utf8(s).len() as int
}

/// `str::len`.
pub fn len_bytes(s: &str) -> (r: usize)
    ensures
        r == byte_len(s@),
{
    assert(s.spec_bytes() == encode_utf8(s@));
    s.as_bytes().len()
}

/// The checks on a new session request, in order; `Ok` when all pass.
pub fn check_create_session(req: &CreateSessionRequest) -> (r: Result<(), ApiError>)
    ensures
        blank(req.scenario_id@) ==> (r matches Err(e) && is_bad_request(e, "Scenario ID cannot be empty"@)),
        !blank(req.scenario_id@) && blank(req.analyst_name@) ==> (r matches Err(e) && is_bad_request(
            e,
            "Analyst name cannot be empty"@,
        )),
        !blank(req.scenario_id@) && !blank(req.analyst_name@) && byte_len(req.analyst_name@) > 100 ==> (r matches Err(
            e,
        ) && is_bad_request(e, "Analyst name too long (max 100 characters)"@)),
        !blank(req.scenario_id@) && !blank(req.analyst_name@) && byte_len(req.analyst_name@) <= 100 ==> r is Ok,
{
    if is_blank(req.scenario_id.as_str()) {
        return Err(ApiError::bad_request("Scenario ID cannot be empty"));
    }
    if is_blank(req.analyst_name.as_str()) {
        return Err(ApiError::bad_request("Analyst name cannot be empty"));
    }
    if len_bytes(req.analyst_name.as_str()) > 100 {
        return Err(ApiError::bad_request("Analyst name too long (max 100 characters)"));
    }
    Ok(())
}

/// The answer for a scenario that could not be loaded.
pub fn scenario_not_found(scenario_id: &str) -> (r: ApiError)
    ensures
        r matches ApiError::NotFound(m) && m@ == "Scenario '"@ + scenario_id@ + "' not found"@,
{
    let mut m = String::from_str("Scenario '");
    m.append(scenario_id);
    m.append("' not found");
    ApiError::NotFound(m)
}

/// The answer for a session that does not exist.
pub fn session_not_found(session_id: &str) -> (r: ApiError)
    ensures
        r matches ApiError::NotFound(m) && m@ == "Session '"@ + session_id@ + "' not found"@,
{
    let mut m = String::from_str("Session '");
    m.append(session_id);
    m.append("' not found");
    ApiError::NotFound(m)
}

/// The answer for an alert that does not exist.
pub fn alert_not_found(alert_id: &str) -> (r: ApiError)
    ensures
        r matches ApiError::NotFound(m) && m@ == "Alert '"@ + alert_id@ + "' not found"@,
{
    let mut m = String::from_str("Alert '");
    m.append(alert_id);
    m.append("' not found");
    ApiError::NotFound(m)
}

/// The answer for a session identifier of the wrong form.
pub fn invalid_session_id() -> (r: ApiError)
    ensures
        is_bad_request(r, "Invalid session ID format"@),
{
    ApiError::bad_request("Invalid session ID format")
}

/// The checks on an alert update, before the alert is looked up.
pub fn check_update_alert(alert_id: &str, req: &UpdateAlertRequest) -> (r: Result<(), ApiError>)
    ensures
        blank(alert_id@) ==> (r matches Err(e) && is_bad_request(e, "Alert ID cannot be empty"@)),
        !blank(alert_id@) && blank(req.status@) ==> (r matches Err(e) && is_bad_request(e, "Status cannot be empty"@)),
        !blank(alert_id@) && !blank(req.status@) ==> r is Ok,
{
    if is_blank(alert_id) {
        return Err(ApiError::bad_request("Alert ID cannot be empty"));
    }
    if is_blank(req.status.as_str()) {
        return Err(ApiError::bad_request("Status cannot be empty"));
    }
    Ok(())
}

/// The status an alert update names, where it names one.
pub open spec fn alert_status_named(s: Seq<char>) -> Option<AlertStatus> {
    if s == "acknowledged"@ {
        Some(AlertStatus::Acknowledged)
    } else if s == "investigating"@ {
        Some(AlertStatus::Investigating)
    } else if s == "resolved"@ {
        Some(AlertStatus::Resolved)
    } else if s == "false_positive"@ {
        Some(AlertStatus::FalsePositive)
    } else {
        None
    }
}

/// Moves an alert to the status named at time `now`: acknowledging stamps
/// `acknowledged_at`, resolving or marking a false positive stamps
/// `resolved_at`; an unknown status is refused and the alert left as it
/// was.
pub fn set_alert_status(alert: &mut Alert, status: &str, now: i64) -> (r: Result<(), ApiError>)
    ensures
        match alert_status_named(status@) {
            None => {
                &&& r matches Err(e) && is_bad_request(e, "Unknown status: "@ + status@)
                &&& *final(alert) == *old(alert)
            },
            Some(st) => {
                &&& r is Ok
                &&& final(alert).status == st
                &&& final(alert).acknowledged_at == if st == AlertStatus::Acknowledged {
                    Some(now)
                } else {
                    old(alert).acknowledged_at
                }
                &&& final(alert).resolved_at == if st == AlertStatus::Resolved || st == AlertStatus::FalsePositive {
                    Some(now)
                } else {
                    old(alert).resolved_at
                }
                &&& final(alert).id == old(alert).id
                &&& final(alert).session_id == old(alert).session_id
                &&& final(alert).rule_id == old(alert).rule_id
                &&& final(alert).title == old(alert).title
                &&& final(alert).description == old(alert).description
                &&& final(alert).severity == old(alert).severity
                &&& final(alert).event_ids == old(alert).event_ids
                &&& final(alert).source == old(alert).source
                &&& final(alert).created_at == old(alert).created_at
            },
        },
{
    if str_eq(status, "acknowledged") {
        alert.status = AlertStatus::Acknowledged;
        alert.acknowledged_at = Some(now);
    } else if str_eq(status, "investigating") {
        alert.status = AlertStatus::Investigating;
    } else if str_eq(status, "resolved") {
        alert.status = AlertStatus::Resolved;
        alert.resolved_at = Some(now);
    } else if str_eq(status, "false_positive") {
        alert.status = AlertStatus::FalsePositive;
        alert.resolved_at = Some(now);
    } else {
        let mut m = String::from_str("Unknown status: ");
        m.append(status);
        return Err(ApiError::BadRequest(m));
    }
    Ok(())
}

/// The severity an incident request names, where it names one.
pub open spec fn severity_named(s: Seq<char>) -> Option<IncidentSeverity> {
    if s == "low"@ {
        Some(IncidentSeverity::Low)
    } else if s == "medium"@ {
        Some(IncidentSeverity::Medium)
    } else if s == "high"@ {
        Some(IncidentSeverity::High)
    } else if s == "critical"@ {
        Some(IncidentSeverity::Critical)
    } else {
        None
    }
}

/// The optional text, or `default` when absent.
pub open spec fn or_default(o: Option<String>, default: Seq<char>) -> Seq<char> {
    match o {
        Some(s) => s@,
        None => default,
    }
}

/// The checks on a new incident request, in order; on success the
/// severity, the scenario (`manual` when none is given) and the description
/// (empty when none is given).
pub fn check_create_incident(session_id: &str, req: &CreateIncidentRequest) -> (r: Result<(IncidentSeverity, String, String), ApiError>)
    ensures
        blank(session_id@) ==> (r matches Err(e) && is_bad_request(e, "Session ID cannot be empty"@)),
        !blank(session_id@) && blank(req.title@) ==> (r matches Err(e) && is_bad_request(e, "Incident title cannot be empty"@)),
        !blank(session_id@) && !blank(req.title@) && byte_len(req.title@) > 200 ==> (r matches Err(e) && is_bad_request(
            e,
            "Incident title too long (max 200 characters)"@,
        )),
        !blank(session_id@) && !blank(req.title@) && byte_len(req.title@) <= 200 && blank(req.severity@) ==> (r matches Err(
            e,
        ) && is_bad_request(e, "Severity cannot be empty"@)),
        !blank(session_id@) && !blank(req.title@) && byte_len(req.title@) <= 200 && !blank(req.severity@) ==> match severity_named(
            req.severity@,
        ) {
            None => r matches Err(e) && is_bad_request(e, "Invalid severity"@),
            Some(sev) => r matches Ok((s, scenario, description)) && s == sev && scenario@ == or_default(
                req.scenario_id,
                "manual"@,
            ) && description@ == or_default(req.description, ""@),
        },
{
    if is_blank(session_id) {
        return Err(ApiError::bad_request("Session ID cannot be empty"));
    }
    if is_blank(req.title.as_str()) {
        return Err(ApiError::bad_request("Incident title cannot be empty"));
    }
    if len_bytes(req.title.as_str()) > 200 {
        return Err(ApiError::bad_request("Incident title too long (max 200 characters)"));
    }
    if is_blank(req.severity.as_str()) {
        return Err(ApiError::bad_request("Severity cannot be empty"));
    }
    let s = req.severity.as_str();
    let severity = if str_eq(s, "low") {
        IncidentSeverity::Low
    } else if str_eq(s, "medium") {
        IncidentSeverity::Medium
    } else if str_eq(s, "high") {
        IncidentSeverity::High
    } else if str_eq(s, "critical") {
        IncidentSeverity::Critical
    } else {
        return Err(ApiError::bad_request("Invalid severity"));
    };
    let scenario = match &req.scenario_id {
        Some(x) => x.clone(),
        None => String::from_str("manual"),
    };
    let description = match &req.description {
        Some(x) => x.clone(),
        None => String::new(),
    };
    proof {
        reveal_strlit("");
    }
    Ok((severity, scenario, description))
}

/// The phase an incident update names, where it names one.
pub open spec fn phase_named(s: Seq<char>) -> Option<IncidentStatus> {
    if s == "investigating"@ {
        Some(IncidentStatus::Investigating)
    } else if s == "contained"@ {
        Some(IncidentStatus::Contained)
    } else if s == "eradicated"@ {
        Some(IncidentStatus::Eradicated)
    } else if s == "recovered"@ {
        Some(IncidentStatus::Recovered)
    } else if s == "closed"@ {
        Some(IncidentStatus::Closed)
    } else {
        None
    }
}

/// The checks on an incident update, in order; on success the phase to
/// move to.
pub fn check_update_incident(session_id: &str, incident_id: &str, req: &UpdateIncidentRequest) -> (r: Result<IncidentStatus, ApiError>)
    ensures
        blank(session_id@) ==> (r matches Err(e) && is_bad_request(e, "Session ID cannot be empty"@)),
        !blank(session_id@) && blank(incident_id@) ==> (r matches Err(e) && is_bad_request(e, "Incident ID cannot be empty"@)),
        !blank(session_id@) && !blank(incident_id@) && blank(req.status@) ==> (r matches Err(e) && is_bad_request(
            e,
            "Status cannot be empty"@,
        )),
        !blank(session_id@) && !blank(incident_id@) && !blank(req.status@) ==> match phase_named(req.status@) {
            None => r matches Err(e) && is_bad_request(e, "Unknown status: "@ + req.status@),
            Some(p) => r == Ok::<IncidentStatus, ApiError>(p),
        },
{
    if is_blank(session_id) {
        return Err(ApiError::bad_request("Session ID cannot be empty"));
    }
    if is_blank(incident_id) {
        return Err(ApiError::bad_request("Incident ID cannot be empty"));
    }
    let s = req.status.as_str();
    if is_blank(s) {
        return Err(ApiError::bad_request("Status cannot be empty"));
    }
    if str_eq(s, "investigating") {
        Ok(IncidentStatus::Investigating)
    } else if str_eq(s, "contained") {
        Ok(IncidentStatus::Contained)
    } else if str_eq(s, "eradicated") {
        Ok(IncidentStatus::Eradicated)
    } else if str_eq(s, "recovered") {
        Ok(IncidentStatus::Recovered)
    } else if str_eq(s, "closed") {
        Ok(IncidentStatus::Closed)
    } else {
        let mut m = String::from_str("Unknown status: ");
        m.append(s);
        Err(ApiError::BadRequest(m))
    }
}

/// The checks on a response action request, in order, given whether the
/// session identifier has the right form.
pub fn check_execute_action(session_id_valid: bool, req: &ExecuteActionRequest) -> (r: Result<(), ApiError>)
    ensures
        !session_id_valid ==> (r matches Err(e) && is_bad_request(e, "Invalid session ID format"@)),
        session_id_valid && blank(req.action_type@) ==> (r matches Err(e) && is_bad_request(e, "Action type cannot be empty"@)),
        session_id_valid && !blank(req.action_type@) && blank(req.target@) ==> (r matches Err(e) && is_bad_request(
            e,
            "Target cannot be empty"@,
        )),
        session_id_valid && !blank(req.action_type@) && !blank(req.target@) && byte_len(req.target@) > 255 ==> (r matches Err(
            e,
        ) && is_bad_request(e, "Target too long (max 255 characters)"@)),
        session_id_valid && !blank(req.action_type@) && !blank(req.target@) && byte_len(req.target@) <= 255 ==> r is Ok,
{
    if !session_id_valid {
        return Err(invalid_session_id());
    }
    if is_blank(req.action_type.as_str()) {
        return Err(ApiError::bad_request("Action type cannot be empty"));
    }
    if is_blank(req.target.as_str()) {
        return Err(ApiError::bad_request("Target cannot be empty"));
    }
    if len_bytes(req.target.as_str()) > 255 {
        return Err(ApiError::bad_request("Target too long (max 255 characters)"));
    }
    Ok(())
}

/// The directory a custom scenario of a difficulty is written to: the
/// difficulty itself for `beginner`, `intermediate` and `advanced`, and
/// `expert` for anything else.
pub open spec fn difficulty_dir(d: Seq<char>) -> Seq<char> {
    if d == "beginner"@ {
        "beginner"@
    } else if d == "intermediate"@ {
        "intermediate"@
    } else if d == "advanced"@ {
        "advanced"@
    } else {
        "expert"@
    }
}

/// The checks on a custom scenario request; on success the directory it
/// is written to.
pub fn check_custom_scenario(req: &CreateCustomScenarioRequest) -> (r: Result<&'static str, ApiError>)
    ensures
        blank(req.id@) || blank(req.name@) ==> (r matches Err(e) && is_bad_request(e, "Scenario ID and Name are required"@)),
        !blank(req.id@) && !blank(req.name@) ==> (r matches Ok(d) && d@ == difficulty_dir(req.difficulty@)),
{
    if is_blank(req.id.as_str()) || is_blank(req.name.as_str()) {
        return Err(ApiError::bad_request("Scenario ID and Name are required"));
    }
    let d = req.difficulty.as_str();
    if str_eq(d, "beginner") {
        Ok("beginner")
    } else if str_eq(d, "intermediate") {
        Ok("intermediate")
    } else if str_eq(d, "advanced") {
        Ok("advanced")
    } else {
        Ok("expert")
    }
}

/// The file name of a custom scenario.
pub fn scenario_file_name(id: &str) -> (r: String)
    ensures
        r@ == id@ + ".json"@,
{
    let mut r = owned(id);
    r.append(".json");
    r
}

/// The answer to every registration request: provisioning is for the
/// administrator alone.
pub fn registration_refusal() -> (r: ApiError)
    ensures
        r matches ApiError::Forbidden(m) && m@ == "Registration is disabled. Only the trusted administrator may provision users."@,
{
    ApiError::Forbidden(String::from_str("Registration is disabled. Only the trusted administrator may provision users."))
}

/// The `otpauth` URI that enrolls an account's TOTP secret.
pub fn totp_uri(username: &str, secret: &str) -> (r: String)
    ensures
        r@ == "otpauth://totp/CyberIncidentSimulator:"@ + username@ + "?secret="@ + secret@
            + "&issuer=CyberIncidentSimulator"@,
{
    let mut r = String::from_str("otpauth://totp/CyberIncidentSimulator:");
    r.append(username);
    r.append("?secret=");
    r.append(secret);
    r.append("&issuer=CyberIncidentSimulator");
    r
}

/// The optional text, or `-` when absent.
pub open spec fn or_dash(o: Option<String>) -> Seq<char> {
    or_default(o, "-"@)
}

/// The raw line recorded for an ingested event without one, stamped at
/// `t`.
pub open spec fn ingest_line(req: LogIngestRequest, t: i64) -> Seq<char> {
    rfc3339_text(t) + " ["@ + req.source@ + "] "@ + req.message@ + " host="@ + req.host@ + " src="@ + or_dash(
        req.source_ip,
    ) + " dst="@ + or_dash(req.destination_ip)
}

/// The session that live ingested logs are recorded under when the
/// request names none.
pub open spec fn ingest_session() -> Seq<char> {
    "live-ingest-session"@
}

fn dash_or(o: &Option<String>) -> (r: &str)
    ensures
        r@ == or_dash(*o),
{
    match o {
        Some(s) => s.as_str(),
        None => "-",
    }
}

/// The event recorded for an ingested log, stamped with the current time;
/// a log without its own raw line gets one stamped with that same time.
pub fn ingest_event(req: LogIngestRequest) -> (r: SecurityEvent)
    ensures
        uuid_text(r.id@),
        r.session_id@ == or_default(req.session_id, ingest_session()),
        r.source == EventSource::from_lower_spec(str_lower(req.source@)),
        r.event_type == req.event_type,
        r.message == req.message,
        r.host == req.host,
        r.source_ip == req.source_ip,
        r.destination_ip == req.destination_ip,
        r.user == req.user_name,
        r.timestamp >= 0,
        match req.raw_log {
            Some(l) => r.raw_log == l,
            None => r.raw_log@ == ingest_line(req, r.timestamp),
        },
        r.mitre_technique is None,
        r.is_malicious == match req.is_malicious {
            Some(b) => b,
            None => false,
        },
{
    let session_id = match &req.session_id {
        Some(s) => s.clone(),
        None => String::from_str("live-ingest-session"),
    };
    let t = now_micros();
    let raw_log = match &req.raw_log {
        Some(l) => l.clone(),
        None => {
            let mut l = rfc3339(t);
            l.append(" [");
            l.append(req.source.as_str());
            l.append("] ");
            l.append(req.message.as_str());
            l.append(" host=");
            l.append(req.host.as_str());
            l.append(" src=");
            l.append(dash_or(&req.source_ip));
            l.append(" dst=");
            l.append(dash_or(&req.destination_ip));
            assert(l@ == ingest_line(req, t));
            l
        },
    };
    let source = EventSource::from_str(req.source.as_str());
    let is_malicious = match req.is_malicious {
        Some(b) => b,
        None => false,
    };
    SecurityEvent {
        id: new_uuid(),
        session_id,
        timestamp: t,
        source,
        event_type: req.event_type,
        message: req.message,
        host: req.host,
        source_ip: req.source_ip,
        destination_ip: req.destination_ip,
        user: req.user_name,
        raw_log,
        mitre_technique: None,
        is_malicious,
    }
}

} // verus!
