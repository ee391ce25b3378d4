//! Synthetic security log entries of the usual kinds.
use vstd::prelude::*;

use crate::clock::{new_uuid, now_micros, uuid_text};
use crate::models::{EventSource, SecurityEvent};
use crate::random::random_in;
use crate::text::{decimal, decimal_string, owned, str_upper, upper};

verus! {

/// The service usually found on a port.
pub open spec fn service_name(port: u16) -> Seq<char> {
    if port == 22 {
        "SSH"@
    } else if port == 80 {
        "HTTP"@
    } else if port == 443 {
        "HTTPS"@
    } else if port == 445 {
        "SMB"@
    } else if port == 3389 {
        "RDP"@
    } else if port == 1433 {
        "MSSQL"@
    } else if port == 3306 {
        "MySQL"@
    } else {
        "Unknown"@
    }
}

/// The service usually found on a port.
pub fn port_service(port: u16) -> (r: &'static str)
    ensures
        r@ == service_name(port),
{
    match port {
        22 => "SSH",
        80 => "HTTP",
        443 => "HTTPS",
        445 => "SMB",
        3389 => "RDP",
        1433 => "MSSQL",
        3306 => "MySQL",
        _ => "Unknown",
    }
}

/// The message of an SSH login from `src_ip` port `port`.
pub open spec fn auth_text(user: Seq<char>, src_ip: Seq<char>, port: u16, success: bool) -> Seq<char> {
    (if success {
        "Accepted password for "@
    } else {
        "Failed password for "@
    }) + user + " from "@ + src_ip + " port "@ + decimal(port as nat) + " ssh2"@
}

/// The message of a firewall rule match.
pub open spec fn firewall_text(action: Seq<char>, src_ip: Seq<char>, src_port: u16, dst_ip: Seq<char>, dst_port: u16) -> Seq<char> {
    str_upper(action) + " TCP "@ + src_ip + ":"@ + decimal(src_port as nat) + " -> "@ + dst_ip + ":"@ + decimal(
        dst_port as nat,
    ) + " ("@ + service_name(dst_port) + ")"@
}

/// The message of a process creation.
pub open spec fn process_text(user: Seq<char>, process: Seq<char>, args: Seq<char>, pid: u32) -> Seq<char> {
    "Process created: "@ + process + " "@ + args + " (user: "@ + user + ", PID: "@ + decimal(pid as nat) + ")"@
}

/// The message of a TCP connection.
pub open spec fn network_text(src_ip: Seq<char>, dst_ip: Seq<char>, dst_port: u16) -> Seq<char> {
    "TCP connection "@ + src_ip + " -> "@ + dst_ip + ":"@ + decimal(dst_port as nat) + " ("@ + service_name(dst_port)
        + ")"@
}

/// A freshly made benign event of this host, source, type and message,
/// whose raw line is its message; the session is set by the caller.
pub open spec fn built(
    e: SecurityEvent,
    host: Seq<char>,
    source: EventSource,
    event_type: Seq<char>,
    message: Seq<char>,
    src_ip: Option<Seq<char>>,
    user: Option<Seq<char>>,
) -> bool {
    &&& uuid_text(e.id@)
    &&& e.session_id@.len() == 0
    &&& e.source == source
    &&& e.event_type@ == event_type
    &&& e.message@ == message
    &&& e.host@ == host
    &&& (match e.source_ip {
        Some(s) => src_ip == Some(s@),
        None => src_ip is None,
    })
    &&& e.destination_ip is None
    &&& (match e.user {
        Some(u) => user == Some(u@),
        None => user is None,
    })
    &&& e.raw_log@ == message
    &&& e.mitre_technique is None
    &&& !e.is_malicious
}

fn build_event(
    host: &str,
    source: EventSource,
    event_type: &str,
    message: &str,
    src_ip: Option<&str>,
    user: Option<&str>,
) -> (r: SecurityEvent)
    ensures
        built(
            r,
            host@,
            source,
            event_type@,
            message@,
            match src_ip {
                Some(s) => Some(s@),
                None => None,
            },
            match user {
                Some(u) => Some(u@),
                None => None,
            },
        ),
{
    SecurityEvent {
        id: new_uuid(),
        session_id: String::new(),
        timestamp: now_micros(),
        source,
        event_type: owned(event_type),
        message: owned(message),
        host: owned(host),
        source_ip: match src_ip {
            Some(s) => Some(owned(s)),
            None => None,
        },
        destination_ip: None,
        user: match user {
            Some(u) => Some(owned(u)),
            None => None,
        },
        raw_log: owned(message),
        mitre_technique: None,
        is_malicious: false,
    }
}

/// A random client port, in `1024..65535`.
fn rand_port() -> (r: u16)
    ensures
        1024 <= r < 65535,
{
    random_in(1024, 65535) as u16
}

/// A random process identifier, in `100..65535`.
fn rand_pid() -> (r: u32)
    ensures
        100 <= r < 65535,
{
    random_in(100, 65535)
}

/// Generates realistic synthetic security log entries.
pub struct LogGenerator;

impl LogGenerator {
    /// An SSH authentication event from a client port `port`.
    pub fn auth_log_from_port(host: &str, user: &str, src_ip: &str, success: bool, port: u16) -> (r: SecurityEvent)
        ensures
            built(
                r,
                host@,
                EventSource::Authentication,
                if success {
                    "login_success"@
                } else {
                    "login_failure"@
                },
                auth_text(user@, src_ip@, port, success),
                Some(src_ip@),
                Some(user@),
            ),
    {
        let mut message = String::from_str(if success {
            "Accepted password for "
        } else {
            "Failed password for "
        });
        message.append(user);
        message.append(" from ");
        message.append(src_ip);
        message.append(" port ");
        message.append(decimal_string(port as u64).as_str());
        message.append(" ssh2");
        let event_type = if success {
            "login_success"
        } else {
            "login_failure"
        };
        build_event(host, EventSource::Authentication, event_type, message.as_str(), Some(src_ip), Some(user))
    }

    /// A realistic SSH authentication event, from a random client port.
    pub fn auth_log(host: &str, user: &str, src_ip: &str, success: bool) -> (r: SecurityEvent)
        ensures
            exists|port: u16|
                1024 <= port < 65535 && built(
                    r,
                    host@,
                    EventSource::Authentication,
                    if success {
                        "login_success"@
                    } else {
                        "login_failure"@
                    },
                    #[trigger] auth_text(user@, src_ip@, port, success),
                    Some(src_ip@),
                    Some(user@),
                ),
    {
        let port = rand_port();
        Self::auth_log_from_port(host, user, src_ip, success, port)
    }

    /// A firewall rule match from client port `src_port`.
    pub fn firewall_log_from_port(src_ip: &str, dst_ip: &str, dst_port: u16, action: &str, src_port: u16) -> (r: SecurityEvent)
        ensures
            built(
                r,
                "firewall-01"@,
                EventSource::Firewall,
                "fw_rule_match"@,
                firewall_text(action@, src_ip@, src_port, dst_ip@, dst_port),
                Some(src_ip@),
                None,
            ),
    {
        let mut message = upper(action);
        message.append(" TCP ");
        message.append(src_ip);
        message.append(":");
        message.append(decimal_string(src_port as u64).as_str());
        message.append(" -> ");
        message.append(dst_ip);
        message.append(":");
        message.append(decimal_string(dst_port as u64).as_str());
        message.append(" (");
        message.append(port_service(dst_port));
        message.append(")");
        build_event("firewall-01", EventSource::Firewall, "fw_rule_match", message.as_str(), Some(src_ip), None)
    }

    /// A firewall log entry, from a random client port.
    pub fn firewall_log(src_ip: &str, dst_ip: &str, dst_port: u16, action: &str) -> (r: SecurityEvent)
        ensures
            exists|src_port: u16|
                1024 <= src_port < 65535 && built(
                    r,
                    "firewall-01"@,
                    EventSource::Firewall,
                    "fw_rule_match"@,
                    #[trigger] firewall_text(action@, src_ip@, src_port, dst_ip@, dst_port),
                    Some(src_ip@),
                    None,
                ),
    {
        let src_port = rand_port();
        Self::firewall_log_from_port(src_ip, dst_ip, dst_port, action, src_port)
    }

    /// A process execution event with process identifier `pid`.
    pub fn process_log_with_pid(host: &str, user: &str, process: &str, args: &str, pid: u32) -> (r: SecurityEvent)
        ensures
            built(
                r,
                host@,
                EventSource::Endpoint,
                "process_execution"@,
                process_text(user@, process@, args@, pid),
                None,
                Some(user@),
            ),
    {
        let mut message = String::from_str("Process created: ");
        message.append(process);
        message.append(" ");
        message.append(args);
        message.append(" (user: ");
        message.append(user);
        message.append(", PID: ");
        message.append(decimal_string(pid as u64).as_str());
        message.append(")");
        build_event(host, EventSource::Endpoint, "process_execution", message.as_str(), None, Some(user))
    }

    /// An endpoint process execution event, with a random process
    /// identifier.
    pub fn process_log(host: &str, user: &str, process: &str, args: &str) -> (r: SecurityEvent)
        ensures
            exists|pid: u32|
                100 <= pid < 65535 && built(
                    r,
                    host@,
                    EventSource::Endpoint,
                    "process_execution"@,
                    #[trigger] process_text(user@, process@, args@, pid),
                    None,
                    Some(user@),
                ),
    {
        let pid = rand_pid();
        Self::process_log_with_pid(host, user, process, args, pid)
    }

    /// A network connection event.
    pub fn network_log(host: &str, src_ip: &str, dst_ip: &str, dst_port: u16) -> (r: SecurityEvent)
        ensures
            built(
                r,
                host@,
                EventSource::Network,
                "tcp_connection"@,
                network_text(src_ip@, dst_ip@, dst_port),
                Some(src_ip@),
                None,
            ),
    {
        let mut message = String::from_str("TCP connection ");
        message.append(src_ip);
        message.append(" -> ");
        message.append(dst_ip);
        message.append(":");
        message.append(decimal_string(dst_port as u64).as_str());
        message.append(" (");
        message.append(port_service(dst_port));
        message.append(")");
        build_event(host, EventSource::Network, "tcp_connection", message.as_str(), Some(src_ip), None)
    }

    /// A DNS query event.
    pub fn dns_log(host: &str, query: &str, answer: &str) -> (r: SecurityEvent)
        ensures
            built(r, host@, EventSource::Dns, "dns_query"@, "DNS query: "@ + query@ + " -> "@ + answer@, None, None),
    {
        let mut message = String::from_str("DNS query: ");
        message.append(query);
        message.append(" -> ");
        message.append(answer);
        build_event(host, EventSource::Dns, "dns_query", message.as_str(), None, None)
    }
}

} // verus!
