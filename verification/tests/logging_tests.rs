use cyber_incident_simulator::logging::generator::port_service;
use cyber_incident_simulator::logging::parser::{extract_ip, extract_user, infer_event_type, is_ip_like};
use cyber_incident_simulator::logging::syslog::{parse_syslog_packet, syslog_event};
use cyber_incident_simulator::logging::{LogFormatter, LogGenerator, LogParser};
use cyber_incident_simulator::models::EventSource;

#[test]
fn cef_line() {
    let line = LogFormatter::cef("Acme", "IDS", "1.0", "100", "Port scan", 7, &[("src", "10.0.0.1"), ("dpt", "22")]);
    assert_eq!(line, "CEF:0|Acme|IDS|1.0|100|Port scan|7|src=10.0.0.1 dpt=22");
    assert_eq!(LogFormatter::cef("a", "b", "c", "d", "e", 0, &[]), "CEF:0|a|b|c|d|e|0|");
}

#[test]
fn json_line_escapes_quotes() {
    let line = LogFormatter::json(0, "info", "h1", "say \"hi\"");
    assert_eq!(
        line,
        "{\"timestamp\":\"1970-01-01T00:00:00+00:00\",\"level\":\"info\",\"host\":\"h1\",\"message\":\"say \\\"hi\\\"\"}"
    );
}

#[test]
fn windows_and_syslog_lines() {
    assert_eq!(
        LogFormatter::windows_event(1_000_000, 4625, "Security", "logon failed"),
        "EventID=4625 Source=Security Time=1970-01-01T00:00:01 Message=logon failed"
    );
    assert_eq!(LogFormatter::syslog(0, "web01", "sshd", 42, "hello"), "Jan  1 00:00:00 web01 sshd[42]: hello");
}

#[test]
fn port_services() {
    assert_eq!(port_service(22), "SSH");
    assert_eq!(port_service(3306), "MySQL");
    assert_eq!(port_service(8080), "Unknown");
}

#[test]
fn generated_auth_events() {
    let e = LogGenerator::auth_log_from_port("h", "bob", "10.0.0.9", false, 5555);
    assert_eq!(e.message, "Failed password for bob from 10.0.0.9 port 5555 ssh2");
    assert_eq!(e.event_type, "login_failure");
    assert_eq!(e.source, EventSource::Authentication);
    assert_eq!(e.user.as_deref(), Some("bob"));
    assert_eq!(e.raw_log, e.message);
    assert_eq!(e.session_id, "");
    assert_eq!(e.id.len(), 36);
    let r = LogGenerator::auth_log("h", "amy", "1.2.3.4", true);
    assert!(r.message.starts_with("Accepted password for amy from 1.2.3.4 port "));
    let port: u32 = r.message.split(' ').nth(7).unwrap().parse().unwrap();
    assert!((1024..65535).contains(&port));
}

#[test]
fn generated_other_events() {
    let f = LogGenerator::firewall_log_from_port("1.1.1.1", "2.2.2.2", 443, "deny", 2000);
    assert_eq!(f.message, "DENY TCP 1.1.1.1:2000 -> 2.2.2.2:443 (HTTPS)");
    assert_eq!(f.host, "firewall-01");
    let p = LogGenerator::process_log_with_pid("ws", "eve", "cmd.exe", "/c whoami", 777);
    assert_eq!(p.message, "Process created: cmd.exe /c whoami (user: eve, PID: 777)");
    let n = LogGenerator::network_log("h", "1.1.1.1", "2.2.2.2", 445);
    assert_eq!(n.message, "TCP connection 1.1.1.1 -> 2.2.2.2:445 (SMB)");
    let d = LogGenerator::dns_log("h", "evil.com", "6.6.6.6");
    assert_eq!(d.message, "DNS query: evil.com -> 6.6.6.6");
    assert_eq!(d.source, EventSource::Dns);
    let pr = LogGenerator::process_log("h", "u", "p", "a");
    assert!(pr.message.starts_with("Process created: p a (user: u, PID: "));
}

#[test]
fn event_type_inference() {
    assert_eq!(infer_event_type("Authentication FAILURE for x"), "login_failure");
    assert_eq!(infer_event_type("Accepted key"), "login_success");
    assert_eq!(infer_event_type("exec /bin/sh"), "process_execution");
    assert_eq!(infer_event_type("connected to host"), "connection");
    assert_eq!(infer_event_type("DNS lookup"), "dns_query");
    assert_eq!(infer_event_type("hello"), "generic");
}

#[test]
fn address_detection() {
    assert!(is_ip_like("10.0.0.255"));
    assert!(!is_ip_like("10.0.0.256"));
    assert!(!is_ip_like("10.0.0"));
    assert!(!is_ip_like("10..0.1"));
    assert!(is_ip_like("1.+2.3.4"));
    assert_eq!(extract_ip("from (192.168.1.7), port 22").as_deref(), Some("192.168.1.7"));
    assert_eq!(extract_ip("no address here"), None);
}

#[test]
fn user_detection() {
    assert_eq!(extract_user("Failed password FOR root from x").as_deref(), Some("root"));
    assert_eq!(extract_user("waiting for "), None);
    assert_eq!(extract_user("nothing"), None);
    let long = format!("for {}", "u".repeat(40));
    assert_eq!(extract_user(&long), None);
}

#[test]
fn parse_line_with_timestamp() {
    let e = LogParser::parse_line(
        "s1",
        "[2024-01-01T00:00:00Z]   Failed password for root from 10.0.0.5 port 22  ",
        "web01",
        EventSource::Authentication,
    )
    .unwrap();
    assert_eq!(e.timestamp, 1_704_067_200_000_000);
    assert_eq!(e.message, "Failed password for root from 10.0.0.5 port 22");
    assert_eq!(e.event_type, "login_failure");
    assert_eq!(e.source_ip.as_deref(), Some("10.0.0.5"));
    assert_eq!(e.user.as_deref(), Some("root"));
    assert_eq!(e.host, "web01");
    assert_eq!(e.session_id, "s1");
    assert!(e.raw_log.starts_with("[2024"));
}

#[test]
fn parse_line_blank_and_plain() {
    assert!(LogParser::parse_line("s", "   ", "h", EventSource::Syslog).is_none());
    let e = LogParser::parse_line("s", "dns query for example.org", "h", EventSource::Dns).unwrap();
    assert_eq!(e.message, "dns query for example.org");
    assert_eq!(e.event_type, "dns_query");
    assert_eq!(e.user.as_deref(), Some("example.org"));
}

#[test]
fn try_parse_refuses_unclosed_bracket() {
    assert!(LogParser::try_parse_line("s", "[2024 no close", "h", EventSource::Syslog).is_none());
    assert!(matches!(LogParser::try_parse_line("s", "", "h", EventSource::Syslog), Some(None)));
    assert!(matches!(LogParser::try_parse_line("s", "[x] ok", "h", EventSource::Syslog), Some(Some(_))));
}

#[test]
fn syslog_packets() {
    let (pri, host, msg) = parse_syslog_packet("<34>Oct 11 22:14:15 mymachine su: test", "10.0.0.9");
    assert_eq!(pri, 34);
    assert_eq!(host, "mymachine");
    assert_eq!(msg, "su: test");
    let (pri, host, msg) = parse_syslog_packet("<34>web01 sshd: Failed login", "1.2.3.4");
    assert_eq!(pri, 34);
    assert_eq!(host, "1.2.3.4");
    assert_eq!(msg, "web01 sshd: Failed login");
    let (pri, host, msg) = parse_syslog_packet("  <x>hello  ", "1.2.3.4");
    assert_eq!(pri, 13);
    assert_eq!(host, "1.2.3.4");
    assert_eq!(msg, "<x>hello");
    let (pri, _, _) = parse_syslog_packet("<4294967296>a b c", "ip");
    assert_eq!(pri, 13);
}

#[test]
fn syslog_bsd_day_padding() {
    let (pri, host, msg) = parse_syslog_packet("<13>Feb  5 17:32:18 10.0.0.99 Use the BFG!", "1.1.1.1");
    assert_eq!(pri, 13);
    assert_eq!(host, "10.0.0.99");
    assert_eq!(msg, "Use the BFG!");
    let (_, host, msg) = parse_syslog_packet("<13>Foo 11 22:14:15 h m", "1.1.1.1");
    assert_eq!(host, "1.1.1.1");
    assert_eq!(msg, "Foo 11 22:14:15 h m");
}

#[test]
fn syslog_rfc5424_packets() {
    let (pri, host, msg) = parse_syslog_packet(
        "<165>1 2003-10-11T22:14:15.003Z mymachine.example.com evntslog - ID47 - An application event",
        "1.1.1.1",
    );
    assert_eq!(pri, 165);
    assert_eq!(host, "mymachine.example.com");
    assert_eq!(msg, "evntslog - ID47 - An application event");
    let (_, host, msg) = parse_syslog_packet("<13>1 2003-10-11T22:14:15Z - app - - - hi", "1.1.1.1");
    assert_eq!(host, "1.1.1.1");
    assert_eq!(msg, "app - - - hi");
    let (_, host, msg) = parse_syslog_packet("<13>0 ts host m", "1.1.1.1");
    assert_eq!(host, "1.1.1.1");
    assert_eq!(msg, "0 ts host m");
}

#[test]
fn syslog_event_flags_hostile_traffic() {
    let e = syslog_event("<13>Oct 11 22:14:15 h1 app: Malware detected", "9.9.9.9");
    assert!(e.is_malicious);
    assert_eq!(e.mitre_technique.as_deref(), Some("T1071"));
    assert_eq!(e.event_type, "syslog_pri_13");
    assert_eq!(e.session_id, "live_system_session");
    assert_eq!(e.source, EventSource::Syslog);
    assert_eq!(e.host, "h1");
    assert_eq!(e.message, "app: Malware detected");
    assert_eq!(e.destination_ip.as_deref(), Some("127.0.0.1"));
    let q = syslog_event("all quiet", "9.9.9.9");
    assert!(!q.is_malicious);
    assert_eq!(q.host, "9.9.9.9");
}
