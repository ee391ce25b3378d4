use cyber_incident_simulator::config::env::{admin_password, admin_username, api_key, env_var, token_secret};
use cyber_incident_simulator::config::settings::{default_database_settings, default_server_settings, default_simulation_settings};
use cyber_incident_simulator::config::{constant_time_eq, default_detection_rules};
use cyber_incident_simulator::database::{
    alert_status_str, evidence_type_str, incident_status_str, parse_alert_status, parse_evidence_type,
    parse_incident_status, parse_severity, severity_str, validate_new_session,
};
use cyber_incident_simulator::detection::rule::rules_from_config;
use cyber_incident_simulator::detection::correlation::CorrelationEngine;
use cyber_incident_simulator::detection::{DetectionEngine, IocList, Severity};
use cyber_incident_simulator::incident::lifecycle::IncidentLifecycle;
use cyber_incident_simulator::incident::ops::{advance_incident, attach_alert_id, find_incident, open_only};
use cyber_incident_simulator::incident::state::IncidentState;
use cyber_incident_simulator::investigation::engine::InvestigationSummary;
use cyber_incident_simulator::investigation::evidence::{infer_evidence_type, EvidenceCollector};
use cyber_incident_simulator::investigation::timeline::Timeline;
use cyber_incident_simulator::models::{
    AlertStatus, EventSource, EvidenceType, Incident, IncidentSeverity, IncidentStatus, SecurityEvent, UserRole,
};
use cyber_incident_simulator::response::engine::build_action;
use cyber_incident_simulator::response::{ExecuteActionRequest, ResponseActionType};
use cyber_incident_simulator::scenarios::{Difficulty, EventGenerator, ScenarioEvent, ScenarioLoader};
use cyber_incident_simulator::seed::{default_assets, should_seed_assets};

fn event(source: EventSource, message: &str, host: &str, ip: Option<&str>, malicious: bool, ts: i64) -> SecurityEvent {
    let mut e = SecurityEvent::new("s1", source, "t", message, host);
    e.source_ip = ip.map(|s| s.to_string());
    e.is_malicious = malicious;
    e.timestamp = ts;
    e
}

#[test]
fn lifecycle_forward_and_close() {
    let mut i = Incident::new("s", "sc", "t", IncidentSeverity::High);
    assert_eq!(i.status, IncidentStatus::New);
    assert!(IncidentLifecycle::transition(&mut i, IncidentStatus::Investigating).is_ok());
    assert_eq!(
        IncidentLifecycle::transition(&mut i, IncidentStatus::Recovered).unwrap_err(),
        "Invalid transition from Investigating to Recovered"
    );
    assert_eq!(i.status, IncidentStatus::Investigating);
    assert!(IncidentLifecycle::transition(&mut i, IncidentStatus::Closed).is_ok());
    assert!(i.closed_at.is_some());
    assert!(IncidentLifecycle::transition(&mut i, IncidentStatus::New).is_err());
}

#[test]
fn full_lifecycle_path() {
    let mut i = Incident::new("s", "sc", "t", IncidentSeverity::Low);
    for st in [
        IncidentStatus::Investigating,
        IncidentStatus::Contained,
        IncidentStatus::Eradicated,
        IncidentStatus::Recovered,
        IncidentStatus::Closed,
    ] {
        assert!(IncidentLifecycle::transition(&mut i, st).is_ok());
    }
    assert_eq!(i.status, IncidentStatus::Closed);
}

#[test]
fn incident_operations() {
    let a = Incident::new("s", "sc", "A", IncidentSeverity::Critical);
    let b = Incident::new("s", "sc", "B", IncidentSeverity::Low);
    let bid = b.id.clone();
    let v = vec![a, b];
    assert_eq!(find_incident(&v, &bid), Some(1));
    assert_eq!(find_incident(&v, "nope"), None);
    let mut c = v[0].clone();
    assert!(attach_alert_id(&mut c, "al-1"));
    assert!(!attach_alert_id(&mut c, "al-1"));
    assert_eq!(c.alert_ids, vec!["al-1".to_string()]);
    let state = IncidentState::from_incidents(&v);
    assert_eq!(state.total_incidents, 2);
    assert_eq!(state.by_status.new, 2);
    assert_eq!(state.critical_open, 1);
    let closed = advance_incident(v.clone(), &bid, IncidentStatus::Closed).unwrap();
    assert_eq!(closed.status, IncidentStatus::Closed);
    assert_eq!(closed.id, bid);
    assert_eq!(
        advance_incident(v.clone(), "nope", IncidentStatus::Closed).unwrap_err(),
        "Incident not found: nope"
    );
    let open = open_only(vec![v[0].clone(), closed]);
    assert_eq!(open.len(), 1);
    assert_eq!(open[0].title, "A");
}

#[test]
fn severity_names_and_scores() {
    assert_eq!(Severity::from_str("HIGH"), Severity::High);
    assert_eq!(Severity::from_str("whatever"), Severity::Medium);
    assert_eq!(Severity::Critical.score(), 4);
    assert_eq!(Severity::Medium.upper_str(), "MEDIUM");
    assert_eq!(Severity::Critical.to_incident_severity(), IncidentSeverity::Critical);
}

#[test]
fn ioc_checks() {
    let iocs = IocList::new();
    assert!(iocs.is_malicious_ip("185.234.218.42"));
    assert!(!iocs.is_malicious_ip("8.8.8.8"));
    assert!(iocs.is_malicious_domain("evil.com"));
    assert!(iocs.is_malicious_filename("mimikatz.exe"));
    assert!(iocs.check_message("connection to 185.234.218.42 on 443"));
    assert!(!iocs.check_message("all normal"));
}

#[test]
fn detection_engine_matches_rules() {
    let rules = rules_from_config(&default_detection_rules());
    assert_eq!(rules.len(), 5);
    let mut engine = DetectionEngine::new(rules);
    let e = event(EventSource::Authentication, "Failed password for root", "h", Some("1.2.3.4"), true, 0);
    let m = engine.analyze(&e);
    assert_eq!(m.len(), 1);
    assert_eq!(m[0].rule_id, "brute-force");
    assert_eq!(m[0].severity, Severity::High);
    assert!(!m[0].ioc_hit);
    let alert = DetectionEngine::create_alert("s1", &e, &m[0]);
    assert_eq!(alert.title, "[HIGH] Brute Force Detection");
    assert_eq!(alert.description, "Rule 'Brute Force Detection' triggered on host 'h': Failed password for root");
    assert_eq!(alert.status, AlertStatus::New);
    let quiet = event(EventSource::Network, "ping 203.0.113.50", "h", None, false, 0);
    let q = engine.analyze(&quiet);
    assert_eq!(q.len(), 1);
    assert_eq!(q[0].rule_id, "IOC-MATCH");
}

#[test]
fn correlation_thresholds() {
    let mut c = CorrelationEngine::new();
    for _ in 0..5 {
        c.ingest(&event(EventSource::Authentication, "bad", "h", Some("9.9.9.9"), false, 0));
    }
    let mut e = event(EventSource::Authentication, "bad", "h", Some("9.9.9.9"), false, 0);
    e.event_type = "login_failure".to_string();
    let before = c.check_correlations();
    assert!(before.is_empty());
    for _ in 0..5 {
        c.ingest(&e);
    }
    let found = c.check_correlations();
    assert_eq!(found.len(), 1);
    assert_eq!(found[0].rule_id, "CORR-BF-01");
    assert_eq!(found[0].description, "Brute force pattern: 5 failed auth attempts from 9.9.9.9");
    assert_eq!(found[0].severity, Severity::High);
    c.reset();
    assert!(c.check_correlations().is_empty());
}

#[test]
fn timeline_is_chronological() {
    let evs = vec![
        event(EventSource::Network, "b", "h2", None, true, 20),
        event(EventSource::Network, "a", "h1", None, false, 10),
    ];
    let t = Timeline::from_events(&evs);
    assert_eq!(t.entries.len(), 2);
    assert_eq!(t.entries[0].timestamp, 10);
    assert_eq!(t.malicious_only().len(), 1);
    assert_eq!(t.for_host("h2").len(), 1);
}

#[test]
fn evidence_and_summary() {
    assert_eq!(infer_evidence_type("process_execution"), EvidenceType::Process);
    let evs = vec![
        event(EventSource::Network, "x", "h1", Some("1.1.1.1"), true, 1),
        event(EventSource::Network, "y", "h1", Some("1.1.1.1"), true, 2),
        event(EventSource::Network, "z", "h2", None, false, 3),
    ];
    let ev = EvidenceCollector::collect_malicious("s1", &evs, None);
    assert_eq!(ev.len(), 2);
    let s = InvestigationSummary::from_records(&evs, &ev);
    assert_eq!(s.total_events, 3);
    assert_eq!(s.malicious_events, 2);
    assert_eq!(s.compromised_hosts, vec!["h1".to_string()]);
    assert_eq!(s.attacker_ips, vec!["1.1.1.1".to_string()]);
    assert_eq!(s.evidence_count, 2);
}

#[test]
fn response_actions() {
    let req = ExecuteActionRequest {
        action_type: "block_ip".to_string(),
        target: "6.6.6.6".to_string(),
        incident_id: None,
        details: None,
    };
    let a = build_action("s1", &req).unwrap();
    assert_eq!(a.action_type, ResponseActionType::BlockIp);
    assert_eq!(a.details, "IP address '6.6.6.6' blocked at firewall — all traffic from/to this IP denied");
    let bad = ExecuteActionRequest { action_type: "nuke".to_string(), ..req };
    assert_eq!(build_action("s1", &bad).unwrap_err(), "Unknown action type: nuke");
    assert_eq!(ResponseActionType::from_str("isolate_host"), Some(ResponseActionType::IsolateHost));
    assert_eq!(ResponseActionType::CloseIncident.as_str(), "close_incident");
}

#[test]
fn database_names_round_trip() {
    assert_eq!(parse_severity(severity_str(&IncidentSeverity::Medium)), IncidentSeverity::Medium);
    assert_eq!(parse_severity("bogus"), IncidentSeverity::Critical);
    assert_eq!(parse_alert_status(alert_status_str(&AlertStatus::FalsePositive)), AlertStatus::FalsePositive);
    assert_eq!(parse_incident_status(incident_status_str(&IncidentStatus::Eradicated)), IncidentStatus::Eradicated);
    assert_eq!(parse_evidence_type(evidence_type_str(&EvidenceType::Registry)), EvidenceType::Registry);
    assert!(validate_new_session("id", "sc", "ana").is_ok());
}

#[test]
fn scenario_events_from_definitions() {
    let se = ScenarioEvent {
        offset_secs: 30,
        source: "auth".to_string(),
        event_type: "login_failure".to_string(),
        message: "Failed".to_string(),
        host: "dc01".to_string(),
        source_ip: Some("1.2.3.4".to_string()),
        destination_ip: None,
        user: None,
        is_malicious: true,
        mitre_technique: Some("T1110".to_string()),
    };
    let e = EventGenerator::from_scenario_event("s1", &se, 1_000_000);
    assert_eq!(e.timestamp, 31_000_000);
    assert_eq!(e.source, EventSource::Authentication);
    assert_eq!(
        e.raw_log,
        "[1970-01-01T00:00:31+00:00] host=dc01 source=auth type=login_failure user=- src_ip=1.2.3.4 msg=Failed"
    );
    let all = EventGenerator::generate_events("s1", &[se.clone(), se], 0);
    assert_eq!(all.len(), 2);
    let n = EventGenerator::noise_event("s1", "web");
    assert_eq!(n.host, "web");
    assert!(!n.is_malicious);
}

#[test]
fn difficulties_and_roles() {
    assert_eq!(Difficulty::from_str("Expert"), Difficulty::Expert);
    assert_eq!(Difficulty::from_str("???"), Difficulty::Beginner);
    assert_eq!(Difficulty::Advanced.default_time_limit(), 3600);
    assert_eq!(Difficulty::Intermediate.as_str(), "intermediate");
    assert_eq!(UserRole::from_str("ADMIN"), UserRole::Admin);
}

#[test]
fn loader_choices() {
    assert_eq!(ScenarioLoader::difficulty_dirs(), vec!["beginner", "intermediate", "advanced", "expert"]);
    assert!(ScenarioLoader::is_scenario_file(Some("json")));
    assert!(!ScenarioLoader::is_scenario_file(Some("JSON")));
    assert!(!ScenarioLoader::is_scenario_file(None));
    let ids = vec!["a".to_string(), "b".to_string(), "b".to_string()];
    assert_eq!(ScenarioLoader::pick_by_id(&ids, "b"), Ok(1));
    assert_eq!(ScenarioLoader::pick_by_id(&ids, "z"), Err("Scenario not found: z".to_string()));
    let sorted = ScenarioLoader::sort_categories(vec![
        ("lateral".to_string(), 3),
        ("discovery".to_string(), 4),
        ("Impact".to_string(), 1),
    ]);
    assert_eq!(sorted, vec![("Impact".to_string(), 1), ("discovery".to_string(), 4), ("lateral".to_string(), 3)]);
    assert_eq!(ScenarioLoader::new("/x").base_dir, "/x");
}

#[test]
fn seeding() {
    let assets = default_assets();
    assert_eq!(assets.len(), 10);
    assert_eq!(assets[0].hostname, "dc-server-01");
    assert_eq!(assets[9].ip_address, "10.0.0.1");
    assert!(should_seed_assets(Some(0)));
    assert!(should_seed_assets(None));
    assert!(!should_seed_assets(Some(3)));
}

#[test]
fn environment_values() {
    assert_eq!(env_var(Some("  ".to_string())), None);
    assert_eq!(admin_username(None), "admin");
    assert_eq!(admin_username(Some(" ".to_string())), "admin");
    assert_eq!(admin_username(Some("root".to_string())), "root");
    assert_eq!(admin_password(Some("pw".to_string())), "pw");
    assert_eq!(api_key(Some("k".to_string())), "k");
    assert_eq!(token_secret(Some("t".to_string())), "t");
    assert!(constant_time_eq("abc", "abc"));
    assert!(!constant_time_eq("abc", "abd"));
    assert!(!constant_time_eq("abc", "ab"));
}

#[test]
fn settings_defaults() {
    let s = default_server_settings();
    assert_eq!(s.port, 8080);
    assert_eq!(default_database_settings().path, "data/simulator.db");
    assert_eq!(default_simulation_settings().scenario_dir, "scenarios");
}

#[test]
fn identifiers_are_version_four_uuids() {
    let a = cyber_incident_simulator::models::SecurityEvent::new("s", cyber_incident_simulator::models::EventSource::Syslog, "t", "m", "h").id;
    let b = cyber_incident_simulator::models::SecurityEvent::new("s", cyber_incident_simulator::models::EventSource::Syslog, "t", "m", "h").id;
    assert_eq!(a.len(), 36);
    let chars: Vec<char> = a.chars().collect();
    for (i, c) in chars.iter().enumerate() {
        if [8, 13, 18, 23].contains(&i) {
            assert_eq!(*c, '-');
        } else {
            assert!(c.is_ascii_hexdigit() && !c.is_ascii_uppercase());
        }
    }
    assert_eq!(chars[14], '4');
    assert!(['8', '9', 'a', 'b'].contains(&chars[19]));
    assert_ne!(a, b);
}
