use cyber_incident_simulator::api::access::{
    allowed_origin, bearer_token, client_ip_from, decide_login, enrollment_secret, invalid_two_factor_code,
    is_public_path, login_admin_password, login_admin_username, login_refusal, security_headers, two_factor_prompt,
    AccessRefusal, LoginOutcome, RateLimiter,
};
use cyber_incident_simulator::api::requests::{
    alert_not_found, check_create_incident, check_create_session, check_custom_scenario, check_execute_action,
    check_update_alert, check_update_incident, ingest_event, invalid_session_id, registration_refusal,
    scenario_file_name, scenario_not_found, session_not_found, set_alert_status, totp_uri, CreateCustomScenarioRequest,
    CreateIncidentRequest, CreateSessionRequest, LogIngestRequest, UpdateAlertRequest, UpdateIncidentRequest,
};
use cyber_incident_simulator::api::ApiError;
use cyber_incident_simulator::models::{Alert, AlertStatus, EventSource, IncidentSeverity, IncidentStatus, UserDbRecord};
use cyber_incident_simulator::response::ExecuteActionRequest;

fn bad(r: Result<(), ApiError>) -> String {
    match r {
        Err(ApiError::BadRequest(m)) => m,
        other => panic!("expected a bad request, got {:?}", other),
    }
}

#[test]
fn error_responses() {
    assert_eq!(ApiError::NotFound("x".to_string()).response_parts(), (404, "x".to_string()));
    assert_eq!(ApiError::BadRequest("y".to_string()).response_parts(), (400, "y".to_string()));
    assert_eq!(ApiError::Unauthorized("z".to_string()).response_parts(), (401, "z".to_string()));
    assert_eq!(ApiError::Forbidden("w".to_string()).response_parts(), (403, "w".to_string()));
    assert_eq!(
        ApiError::Internal("db down".to_string()).response_parts(),
        (500, "An internal server error occurred".to_string())
    );
}

#[test]
fn session_request_checks() {
    let ok = CreateSessionRequest { scenario_id: "s1".to_string(), analyst_name: "Ana".to_string() };
    assert!(check_create_session(&ok).is_ok());
    let r = CreateSessionRequest { scenario_id: " ".to_string(), analyst_name: "".to_string() };
    assert_eq!(bad(check_create_session(&r)), "Scenario ID cannot be empty");
    let r = CreateSessionRequest { scenario_id: "s".to_string(), analyst_name: "\t".to_string() };
    assert_eq!(bad(check_create_session(&r)), "Analyst name cannot be empty");
    let r = CreateSessionRequest { scenario_id: "s".to_string(), analyst_name: "a".repeat(101) };
    assert_eq!(bad(check_create_session(&r)), "Analyst name too long (max 100 characters)");
    let r = CreateSessionRequest { scenario_id: "s".to_string(), analyst_name: "ü".repeat(51) };
    assert_eq!(bad(check_create_session(&r)), "Analyst name too long (max 100 characters)");
}

#[test]
fn not_found_messages() {
    assert!(matches!(scenario_not_found("s9"), ApiError::NotFound(m) if m == "Scenario 's9' not found"));
    assert!(matches!(session_not_found("x"), ApiError::NotFound(m) if m == "Session 'x' not found"));
    assert!(matches!(alert_not_found("a"), ApiError::NotFound(m) if m == "Alert 'a' not found"));
    assert!(matches!(invalid_session_id(), ApiError::BadRequest(m) if m == "Invalid session ID format"));
}

fn alert() -> Alert {
    Alert::new("s", "R1", "t", IncidentSeverity::High, "auth")
}

#[test]
fn alert_status_updates() {
    assert_eq!(bad(check_update_alert(" ", &UpdateAlertRequest { status: "x".to_string() })), "Alert ID cannot be empty");
    assert_eq!(bad(check_update_alert("a", &UpdateAlertRequest { status: "".to_string() })), "Status cannot be empty");
    assert!(check_update_alert("a", &UpdateAlertRequest { status: "x".to_string() }).is_ok());
    let mut a = alert();
    set_alert_status(&mut a, "acknowledged", 7).unwrap();
    assert_eq!(a.status, AlertStatus::Acknowledged);
    assert_eq!(a.acknowledged_at, Some(7));
    assert_eq!(a.resolved_at, None);
    set_alert_status(&mut a, "false_positive", 9).unwrap();
    assert_eq!(a.status, AlertStatus::FalsePositive);
    assert_eq!(a.resolved_at, Some(9));
    assert_eq!(a.acknowledged_at, Some(7));
    let before = a.status;
    assert_eq!(bad(set_alert_status(&mut a, "Resolved", 10)), "Unknown status: Resolved");
    assert_eq!(a.status, before);
    set_alert_status(&mut a, "investigating", 11).unwrap();
    assert_eq!(a.status, AlertStatus::Investigating);
    assert_eq!(a.resolved_at, Some(9));
}

#[test]
fn incident_request_checks() {
    let req = |title: &str, sev: &str| CreateIncidentRequest {
        title: title.to_string(),
        severity: sev.to_string(),
        description: None,
        scenario_id: None,
    };
    let (s, scen, desc) = check_create_incident("sess", &req("Breach", "high")).unwrap();
    assert_eq!(s, IncidentSeverity::High);
    assert_eq!(scen, "manual");
    assert_eq!(desc, "");
    let full = CreateIncidentRequest {
        title: "T".to_string(),
        severity: "critical".to_string(),
        description: Some("d".to_string()),
        scenario_id: Some("sc".to_string()),
    };
    let (s, scen, desc) = check_create_incident("sess", &full).unwrap();
    assert_eq!((s, scen.as_str(), desc.as_str()), (IncidentSeverity::Critical, "sc", "d"));
    assert!(matches!(check_create_incident(" ", &req("t", "low")), Err(ApiError::BadRequest(m)) if m == "Session ID cannot be empty"));
    assert!(matches!(check_create_incident("s", &req("", "low")), Err(ApiError::BadRequest(m)) if m == "Incident title cannot be empty"));
    assert!(matches!(check_create_incident("s", &req(&"x".repeat(201), "low")), Err(ApiError::BadRequest(m)) if m == "Incident title too long (max 200 characters)"));
    assert!(matches!(check_create_incident("s", &req("t", " ")), Err(ApiError::BadRequest(m)) if m == "Severity cannot be empty"));
    assert!(matches!(check_create_incident("s", &req("t", "HIGH")), Err(ApiError::BadRequest(m)) if m == "Invalid severity"));
}

#[test]
fn incident_update_checks() {
    let req = |s: &str| UpdateIncidentRequest { status: s.to_string() };
    assert_eq!(check_update_incident("s", "i", &req("contained")).unwrap(), IncidentStatus::Contained);
    assert_eq!(check_update_incident("s", "i", &req("closed")).unwrap(), IncidentStatus::Closed);
    assert!(matches!(check_update_incident("", "i", &req("closed")), Err(ApiError::BadRequest(m)) if m == "Session ID cannot be empty"));
    assert!(matches!(check_update_incident("s", " ", &req("closed")), Err(ApiError::BadRequest(m)) if m == "Incident ID cannot be empty"));
    assert!(matches!(check_update_incident("s", "i", &req("")), Err(ApiError::BadRequest(m)) if m == "Status cannot be empty"));
    assert!(matches!(check_update_incident("s", "i", &req("new")), Err(ApiError::BadRequest(m)) if m == "Unknown status: new"));
}

#[test]
fn action_request_checks() {
    let req = |t: &str, target: &str| ExecuteActionRequest {
        action_type: t.to_string(),
        target: target.to_string(),
        incident_id: None,
        details: None,
    };
    assert!(check_execute_action(true, &req("block_ip", "1.2.3.4")).is_ok());
    assert_eq!(bad(check_execute_action(false, &req("block_ip", "1.2.3.4"))), "Invalid session ID format");
    assert_eq!(bad(check_execute_action(true, &req(" ", "1.2.3.4"))), "Action type cannot be empty");
    assert_eq!(bad(check_execute_action(true, &req("x", ""))), "Target cannot be empty");
    assert_eq!(bad(check_execute_action(true, &req("x", &"t".repeat(256)))), "Target too long (max 255 characters)");
}

#[test]
fn custom_scenarios() {
    let req = |id: &str, d: &str| CreateCustomScenarioRequest {
        id: id.to_string(),
        name: "N".to_string(),
        difficulty: d.to_string(),
        category: "c".to_string(),
        description: "d".to_string(),
        objective: "o".to_string(),
        time_limit_secs: 60,
    };
    assert_eq!(check_custom_scenario(&req("a", "advanced")).unwrap(), "advanced");
    assert_eq!(check_custom_scenario(&req("a", "godlike")).unwrap(), "expert");
    assert!(matches!(check_custom_scenario(&req(" ", "beginner")), Err(ApiError::BadRequest(m)) if m == "Scenario ID and Name are required"));
    assert_eq!(scenario_file_name("abc"), "abc.json");
}

#[test]
fn fixed_answers() {
    assert!(matches!(registration_refusal(), ApiError::Forbidden(m) if m.starts_with("Registration is disabled")));
    assert_eq!(
        totp_uri("bob", "SECRET"),
        "otpauth://totp/CyberIncidentSimulator:bob?secret=SECRET&issuer=CyberIncidentSimulator"
    );
    assert!(matches!(login_refusal(), ApiError::Unauthorized(m) if m == "Gözden geçirin: Kullanıcı adı veya şifre hatalı."));
    assert_eq!(two_factor_prompt(), "Lütfen 6 haneli 2FA kodunuzu giriniz.");
    assert!(matches!(invalid_two_factor_code(), ApiError::Unauthorized(m) if m == "Geçersiz 2FA doğrulama kodu."));
}

#[test]
fn ingest_builds_event() {
    let req = LogIngestRequest {
        session_id: None,
        source: "FIREWALL".to_string(),
        event_type: "deny".to_string(),
        message: "blocked".to_string(),
        host: "fw".to_string(),
        source_ip: Some("1.1.1.1".to_string()),
        destination_ip: None,
        user_name: None,
        raw_log: None,
        is_malicious: None,
    };
    let e = ingest_event(req);
    assert_eq!(e.session_id, "live-ingest-session");
    assert_eq!(e.source, EventSource::Firewall);
    assert!(!e.is_malicious);
    assert!(e.raw_log.ends_with(" [FIREWALL] blocked host=fw src=1.1.1.1 dst=-"));
    let req2 = LogIngestRequest {
        session_id: Some("s".to_string()),
        source: "x".to_string(),
        event_type: "t".to_string(),
        message: "m".to_string(),
        host: "h".to_string(),
        source_ip: None,
        destination_ip: None,
        user_name: Some("u".to_string()),
        raw_log: Some("raw".to_string()),
        is_malicious: Some(true),
    };
    let e2 = ingest_event(req2);
    assert_eq!(e2.raw_log, "raw");
    assert_eq!(e2.source, EventSource::Unknown);
    assert!(e2.is_malicious);
    assert_eq!(e2.user.as_deref(), Some("u"));
}

#[test]
fn public_paths() {
    assert!(is_public_path("/api/health"));
    assert!(is_public_path("/index.html"));
    assert!(is_public_path("/api"));
    assert!(!is_public_path("/api/sessions"));
}

#[test]
fn client_address() {
    assert_eq!(client_ip_from(Some(" 10.1.1.1 , 172.16.0.1")), "10.1.1.1");
    assert_eq!(client_ip_from(Some("8.8.8.8")), "8.8.8.8");
    assert_eq!(client_ip_from(None), "127.0.0.1");
}

#[test]
fn tokens() {
    assert_eq!(bearer_token(Some("Bearer abc"), None).as_deref(), Some("abc"));
    assert_eq!(bearer_token(Some("Basic abc"), Some("key")).as_deref(), Some("key"));
    assert_eq!(bearer_token(Some("Bearer "), Some("key")), None);
    assert_eq!(bearer_token(None, Some("")), None);
    assert_eq!(bearer_token(None, None), None);
}

#[test]
fn refusals_and_headers() {
    assert_eq!(AccessRefusal::RateLimited.response_parts(), (429, "Too Many Requests: per-IP minute limit exceeded."));
    assert_eq!(AccessRefusal::Banned.response_parts().0, 403);
    assert_eq!(AccessRefusal::InvalidToken.response_parts().1, "Unauthorized: Invalid or expired security token.");
    let h = security_headers();
    assert_eq!(h.len(), 5);
    assert_eq!(h[1], ("x-frame-options", "DENY"));
}

#[test]
fn rate_limit_allows_sixty_per_minute() {
    let mut l = RateLimiter::new();
    for i in 0..60u64 {
        assert!(l.check("1.2.3.4", i * 1000));
    }
    assert!(!l.check("1.2.3.4", 61_000));
    assert!(l.check("5.6.7.8", 61_000));
    assert!(!l.check("1.2.3.4", 60_000_000));
    assert!(l.check("1.2.3.4", 60_000_001));
}

fn record(totp: bool, secret: Option<&str>) -> UserDbRecord {
    UserDbRecord {
        id: "u1".to_string(),
        username: "bob".to_string(),
        password_hash: "h".to_string(),
        salt: "s".to_string(),
        role: "analyst".to_string(),
        totp_secret: secret.map(|s| s.to_string()),
        totp_enabled: totp,
        created_at: "now".to_string(),
    }
}

#[test]
fn login_decisions() {
    assert_eq!(decide_login("  ADMIN ", "pw", &None, false, "admin", "pw", false), LoginOutcome::Admin);
    assert_eq!(decide_login("admin", "bad", &None, false, "admin", "pw", false), LoginOutcome::Refused);
    let u = Some(record(true, Some("S")));
    assert_eq!(decide_login("bob", "x", &u, false, "admin", "pw", true), LoginOutcome::TwoFactorRequired);
    assert_eq!(decide_login("bob", "x", &u, true, "admin", "pw", true), LoginOutcome::Account);
    assert_eq!(decide_login("bob", "x", &u, true, "admin", "pw", false), LoginOutcome::Refused);
    let nosecret = Some(record(true, None));
    assert_eq!(decide_login("bob", "x", &nosecret, false, "admin", "pw", true), LoginOutcome::Account);
    assert_eq!(login_admin_username(None), "admin");
    assert_eq!(login_admin_password(Some("p".to_string())), "p");
    assert_eq!(login_admin_password(None), "change_admin_password_immediately");
}

#[test]
fn enrollment_secrets() {
    assert!(matches!(enrollment_secret(&None), Err(ApiError::NotFound(m)) if m == "Kullanıcı bulunamadı."));
    assert!(matches!(enrollment_secret(&Some(record(false, None))), Err(ApiError::BadRequest(m)) if m == "Önce 2FA kurulumu yapılmalıdır."));
    assert_eq!(enrollment_secret(&Some(record(false, Some("K")))).unwrap(), "K");
}

#[test]
fn origins() {
    assert_eq!(allowed_origin(Some(" http://a ".to_string()), Some("http://b".to_string())), "http://a");
    assert_eq!(allowed_origin(None, Some("http://b".to_string())), "http://b");
    assert_eq!(allowed_origin(None, None), "http://127.0.0.1:8080");
}
