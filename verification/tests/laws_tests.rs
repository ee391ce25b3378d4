use cyber_incident_simulator::api::access::{decide_access, AccessRefusal, RateLimiter};
use cyber_incident_simulator::api::requests::{ingest_event, LogIngestRequest};
use cyber_incident_simulator::scenarios::{EventGenerator, ScenarioEvent};
use cyber_incident_simulator::audit::scanner::build_rules;
use cyber_incident_simulator::audit::AuditSeverity;
use cyber_incident_simulator::detection::correlation::CorrelationEngine;
use cyber_incident_simulator::detection::{IocList, Severity};
use cyber_incident_simulator::incident::lifecycle::IncidentLifecycle;
use cyber_incident_simulator::models::{Alert, AlertStatus, EventSource, Incident, IncidentSeverity, IncidentStatus, SecurityEvent};
use cyber_incident_simulator::response::engine::acknowledge;

#[test]
fn transition_stamps_the_given_instant() {
    let mut i = Incident::new("s", "sc", "t", IncidentSeverity::High);
    let before = i.clone();
    assert!(IncidentLifecycle::transition_at(&mut i, IncidentStatus::Investigating, 1234).is_ok());
    assert_eq!(i.status, IncidentStatus::Investigating);
    assert_eq!(i.updated_at, 1234);
    assert_eq!(i.closed_at, None);
    assert_eq!(i.created_at, before.created_at);
    assert!(IncidentLifecycle::transition_at(&mut i, IncidentStatus::Closed, 5678).is_ok());
    assert_eq!(i.updated_at, 5678);
    assert_eq!(i.closed_at, Some(5678));
    let frozen = i.clone();
    assert!(IncidentLifecycle::transition_at(&mut i, IncidentStatus::New, 9999).is_err());
    assert_eq!(i.updated_at, frozen.updated_at);
    assert_eq!(i.status, IncidentStatus::Closed);
}

#[test]
fn transition_stamps_closing_with_its_update_time() {
    let mut i = Incident::new("s", "sc", "t", IncidentSeverity::Low);
    assert!(IncidentLifecycle::transition(&mut i, IncidentStatus::Closed).is_ok());
    assert_eq!(i.closed_at, Some(i.updated_at));
}

#[test]
fn acknowledging_keeps_the_alert() {
    let mut a = Alert::new("sess", "R-1", "Title", IncidentSeverity::Medium, "firewall");
    a.description = "desc".to_string();
    let before = a.clone();
    let action = acknowledge(&mut a, "sess", &before.id);
    assert_eq!(a.status, AlertStatus::Acknowledged);
    assert!(a.acknowledged_at.is_some());
    assert_eq!(a.description, "desc");
    assert_eq!(a.session_id, before.session_id);
    assert_eq!(a.rule_id, before.rule_id);
    assert_eq!(a.source, before.source);
    assert_eq!(a.created_at, before.created_at);
    assert_eq!(action.details, "Alert acknowledged: Title");
}

#[test]
fn hardcoded_secret_rule_is_critical() {
    let rules = build_rules();
    assert_eq!(rules[0].id, "SEC-001");
    assert_eq!(rules[0].severity, AuditSeverity::Critical);
}

fn event(ip: &str, kind: &str) -> SecurityEvent {
    let mut e = SecurityEvent::new("s", EventSource::Firewall, kind, "m", "h");
    e.source_ip = Some(ip.to_string());
    e
}

#[test]
fn correlation_over_a_run_of_events() {
    let mut c = CorrelationEngine::new();
    for _ in 0..29 {
        c.ingest(&event("10.0.0.1", "conn"));
    }
    for _ in 0..4 {
        c.ingest(&event("10.0.0.2", "auth_failure"));
    }
    assert!(c.check_correlations().is_empty());
    c.ingest(&event("10.0.0.1", "conn"));
    c.ingest(&event("10.0.0.2", "login failed"));
    let found = c.check_correlations();
    assert_eq!(found.len(), 2);
    assert_eq!(found[0].rule_id, "CORR-BF-01");
    assert_eq!(found[0].severity, Severity::High);
    assert_eq!(found[0].related_ips, vec!["10.0.0.2".to_string()]);
    assert_eq!(found[1].rule_id, "CORR-SCAN-01");
    assert_eq!(found[1].severity, Severity::Medium);
    assert_eq!(found[1].related_ips, vec!["10.0.0.1".to_string()]);
    assert!(found.iter().all(|f| f.related_hosts.is_empty()));
}

#[test]
fn rate_limit_over_a_run_of_calls() {
    let mut l = RateLimiter::new();
    let mut allowed = 0;
    for k in 0..100u64 {
        if l.check("1.1.1.1", k * 100_000) {
            allowed += 1;
        }
        assert!(l.check("2.2.2.2", k * 100_000) || k >= 60);
    }
    assert_eq!(allowed, 60);
    assert!(!l.check("1.1.1.1", 59_000_000));
    assert!(l.check("1.1.1.1", 60_000_001));
}

#[test]
fn indicator_checks_agree_and_grow() {
    let iocs = IocList::new();
    assert!(iocs.is_malicious_ip("185.234.218.42"));
    assert!(iocs.check_message("185.234.218.42"));
    assert!(iocs.is_malicious_domain("EVIL.com"));
    assert!(iocs.check_message("EVIL.com"));
    assert!(iocs.is_malicious_filename("C:\\MIMIKATZ.EXE"));
    assert!(iocs.check_message("prefix C:\\MIMIKATZ.EXE suffix"));
    assert!(iocs.check_message("x deadbeefcafebabedeadbeefcafebabe y"));
}

#[test]
fn access_decision_in_order() {
    let mut l = RateLimiter::new();
    assert_eq!(decide_access(&mut l, "/api/health", "9.9.9.9", 0, None, None), Ok(None));
    assert_eq!(decide_access(&mut l, "/index.html", "9.9.9.9", 0, None, None), Ok(None));
    assert_eq!(
        decide_access(&mut l, "/api/sessions", "9.9.9.9", 0, None, None),
        Err(AccessRefusal::MissingToken)
    );
    assert_eq!(
        decide_access(&mut l, "/api/sessions", "9.9.9.9", 1, Some("Bearer abc"), None),
        Ok(Some("abc".to_string()))
    );
    assert_eq!(
        decide_access(&mut l, "/api/sessions", "9.9.9.9", 2, None, Some("key-1")),
        Ok(Some("key-1".to_string()))
    );
    for k in 3..60u64 {
        assert!(decide_access(&mut l, "/api/x", "9.9.9.9", k, Some("Bearer t"), None).is_ok());
    }
    assert_eq!(
        decide_access(&mut l, "/api/x", "9.9.9.9", 61, Some("Bearer t"), None),
        Err(AccessRefusal::RateLimited)
    );
    assert!(decide_access(&mut l, "/api/health", "9.9.9.9", 62, None, None).is_ok());
    assert!(decide_access(&mut l, "/api/x", "8.8.8.8", 63, Some("Bearer t"), None).is_ok());
}

#[test]
fn scenario_times_fit_check() {
    let se = ScenarioEvent {
        offset_secs: 30,
        source: "auth".to_string(),
        event_type: "login".to_string(),
        message: "m".to_string(),
        host: "h".to_string(),
        source_ip: None,
        destination_ip: None,
        user: None,
        is_malicious: false,
        mitre_technique: None,
    };
    assert!(EventGenerator::times_fit(&[se.clone()], 0));
    assert!(!EventGenerator::times_fit(&[se.clone()], i64::MAX - 1_000_000));
    assert!(EventGenerator::times_fit(&[], i64::MAX));
}

#[test]
fn ingested_line_carries_the_event_time() {
    let req = LogIngestRequest {
        session_id: None,
        source: "FIREWALL".to_string(),
        event_type: "deny".to_string(),
        message: "blocked".to_string(),
        host: "fw".to_string(),
        source_ip: None,
        destination_ip: None,
        user_name: None,
        raw_log: None,
        is_malicious: None,
    };
    let e = ingest_event(req);
    assert!(e.timestamp >= 0);
    let stamp = chrono::DateTime::from_timestamp_micros(e.timestamp).unwrap().to_rfc3339();
    assert_eq!(e.raw_log, format!("{} [FIREWALL] blocked host=fw src=- dst=-", stamp));
}
