//! Turning scenario event definitions into security events.
use vstd::prelude::*;

use crate::clock::{new_uuid, now_micros, rfc3339, rfc3339_text, uuid_text};
use crate::models::{EventSource, SecurityEvent};
use crate::text::{copy_opt, owned, str_lower};

use super::scenario::ScenarioEvent;

verus! {

/// The optional text, or `-` when absent.
pub open spec fn or_dash(o: Option<String>) -> Seq<char> {
    match o {
        Some(s) => s@,
        None => "-"@,
    }
}

/// The raw log line of a scenario event stamped at `ts`.
pub open spec fn raw_line(se: ScenarioEvent, ts: i64) -> Seq<char> {
    "["@ + rfc3339_text(ts) + "] host="@ + se.host@ + " source="@ + se.source@ + " type="@
        + se.event_type@ + " user="@ + or_dash(se.user) + " src_ip="@ + or_dash(se.source_ip)
        + " msg="@ + se.message@
}

/// The time of a scenario event that starts `offset` seconds after
/// `start` (times in microseconds).
pub open spec fn offset_time(start: i64, offset: u64) -> int {
    start + offset * 1_000_000
}

/// The scenario event's time fits the representation.
pub open spec fn fits(start: i64, offset: u64) -> bool {
    offset_time(start, offset) <= i64::MAX
}

/// `e` is the security event made from scenario event `se` in a session
/// starting at `start`.
pub open spec fn made_from(e: SecurityEvent, session_id: Seq<char>, se: ScenarioEvent, start: i64) -> bool {
    &&& e.session_id@ == session_id
    &&& e.timestamp == offset_time(start, se.offset_secs)
    &&& e.source == EventSource::from_lower_spec(str_lower(se.source@))
    &&& e.event_type == se.event_type
    &&& e.message == se.message
    &&& e.host == se.host
    &&& e.source_ip == se.source_ip
    &&& e.destination_ip == se.destination_ip
    &&& e.user == se.user
    &&& e.raw_log@ == raw_line(se, e.timestamp)
    &&& e.mitre_technique == se.mitre_technique
    &&& e.is_malicious == se.is_malicious
    &&& uuid_text(e.id@)
}

fn or_dash_str(o: &Option<String>) -> (r: &str)
    ensures
        r@ == or_dash(*o),
{
    match o {
        Some(s) => s.as_str(),
        None => "-",
    }
}

/// The raw log line of a scenario event stamped at `ts`.
pub fn format_raw_log(se: &ScenarioEvent, ts: i64) -> (r: String)
    ensures
        r@ == raw_line(*se, ts),
{
    let mut r = String::from_str("[");
    let t = rfc3339(ts);
    r.append(t.as_str());
    r.append("] host=");
    r.append(se.host.as_str());
    r.append(" source=");
    r.append(se.source.as_str());
    r.append(" type=");
    r.append(se.event_type.as_str());
    r.append(" user=");
    r.append(or_dash_str(&se.user));
    r.append(" src_ip=");
    r.append(or_dash_str(&se.source_ip));
    r.append(" msg=");
    r.append(se.message.as_str());
    r
}

/// A benign background message: source, event type, message.
pub open spec fn noise_message(i: int) -> (Seq<char>, Seq<char>, Seq<char>) {
    if i == 0 {
        ("authentication"@, "login_success"@, "Accepted password for svcuser from 10.0.1.2 port 22 ssh2"@)
    } else if i == 1 {
        ("firewall"@, "connection_allow"@, "ALLOW TCP 10.0.1.15:45234 -> 10.0.1.20:80 (HTTP)"@)
    } else if i == 2 {
        ("endpoint"@, "process_start"@, "Process started: chrome.exe by user jdoe (PID 1234)"@)
    } else if i == 3 {
        ("web_server"@, "http_request"@, "HTTP GET /index.html from 10.0.2.5 - 200 OK"@)
    } else {
        ("network"@, "dns_query"@, "DNS query: www.google.com -> 142.250.80.46"@)
    }
}

/// The millisecond within the second of an instant given in microseconds
/// (instants before the epoch count from the second below them).
pub open spec fn subsec_millis(micros: int) -> int {
    (micros % 1_000_000) / 1000
}

/// Converts scenario event definitions into security events.
pub struct EventGenerator;

impl EventGenerator {
    /// Whether every event of a scenario, timed from `start_time`, falls
    /// within the representable time range (what `generate_events` needs).
    pub fn times_fit(events: &[ScenarioEvent], start_time: i64) -> (r: bool)
        ensures
            r == forall|i: int| 0 <= i < events@.len() ==> fits(start_time, #[trigger] events@[i].offset_secs),
    {
        let mut i: usize = 0;
        while i < events.len()
            invariant
                i <= events@.len(),
                forall|k: int| 0 <= k < i ==> fits(start_time, #[trigger] events@[k].offset_secs),
            decreases events.len() - i,
        {
            let wide: i128 = start_time as i128 + (events[i].offset_secs as i128) * 1_000_000;
            if wide > i64::MAX as i128 {
                return false;
            }
            i = i + 1;
        }
        true
    }

    /// All security events of a scenario's event definitions, in order,
    /// timed from `start_time` (microseconds).
    pub fn generate_events(session_id: &str, events: &[ScenarioEvent], start_time: i64) -> (r: Vec<SecurityEvent>)
        requires
            forall|i: int| 0 <= i < events@.len() ==> fits(start_time, #[trigger] events@[i].offset_secs),
        ensures
            r@.len() == events@.len(),
            forall|i: int| 0 <= i < r@.len() ==> made_from(#[trigger] r@[i], session_id@, events@[i], start_time),
    {
        let mut r: Vec<SecurityEvent> = Vec::new();
        let mut i: usize = 0;
        while i < events.len()
            invariant
                i <= events@.len(),
                r@.len() == i,
                forall|k: int| 0 <= k < events@.len() ==> fits(start_time, #[trigger] events@[k].offset_secs),
                forall|k: int| 0 <= k < i ==> made_from(#[trigger] r@[k], session_id@, events@[k], start_time),
            decreases events.len() - i,
        {
            assert(fits(start_time, events@[i as int].offset_secs));
            r.push(Self::from_scenario_event(session_id, &events[i], start_time));
            i = i + 1;
        }
        r
    }

    /// The security event of one scenario event definition, timed
    /// `offset_secs` after `start_time`.
    pub fn from_scenario_event(session_id: &str, se: &ScenarioEvent, start_time: i64) -> (r: SecurityEvent)
        requires
            fits(start_time, se.offset_secs),
        ensures
            made_from(r, session_id@, *se, start_time),
    {
        let wide: i128 = start_time as i128 + (se.offset_secs as i128) * 1_000_000;
        let timestamp: i64 = wide as i64;
        SecurityEvent {
            id: new_uuid(),
            session_id: owned(session_id),
            timestamp,
            source: EventSource::from_str(se.source.as_str()),
            event_type: se.event_type.clone(),
            message: se.message.clone(),
            host: se.host.clone(),
            source_ip: copy_opt(&se.source_ip),
            destination_ip: copy_opt(&se.destination_ip),
            user: copy_opt(&se.user),
            raw_log: format_raw_log(se, timestamp),
            mitre_technique: copy_opt(&se.mitre_technique),
            is_malicious: se.is_malicious,
        }
    }

    /// A benign background event on a host, stamped now; which of five
    /// routine messages it carries follows from the current millisecond.
    pub fn noise_event(session_id: &str, host: &str) -> (r: SecurityEvent)
        ensures
            r.session_id@ == session_id@,
            r.host@ == host@,
            exists|i: int| 0 <= i < 5 && {
                let (src, et, msg) = #[trigger] noise_message(i);
                &&& r.source == EventSource::from_lower_spec(str_lower(src))
                &&& r.event_type@ == et
                &&& r.message@ == msg
                &&& r.raw_log@ == "["@ + rfc3339_text(r.timestamp) + "] "@ + host@ + " "@ + src + " "@ + msg
            },
            r.source_ip matches Some(ip) && ip@ == "10.0.1.2"@,
            r.destination_ip is None,
            r.user matches Some(u) && u@ == "svcuser"@,
            r.mitre_technique is None,
            !r.is_malicious,
            uuid_text(r.id@),
    {
        let now = now_micros();
        let within: i64 = now % 1_000_000;
        let within: i64 = if within < 0 {
            within + 1_000_000
        } else {
            within
        };
        let idx = (within / 1000) % 5;
        let (source, etype, msg): (&str, &str, &str) = if idx == 0 {
            ("authentication", "login_success", "Accepted password for svcuser from 10.0.1.2 port 22 ssh2")
        } else if idx == 1 {
            ("firewall", "connection_allow", "ALLOW TCP 10.0.1.15:45234 -> 10.0.1.20:80 (HTTP)")
        } else if idx == 2 {
            ("endpoint", "process_start", "Process started: chrome.exe by user jdoe (PID 1234)")
        } else if idx == 3 {
            ("web_server", "http_request", "HTTP GET /index.html from 10.0.2.5 - 200 OK")
        } else {
            ("network", "dns_query", "DNS query: www.google.com -> 142.250.80.46")
        };
        assert(noise_message(idx as int) == (source@, etype@, msg@));
        let mut raw = String::from_str("[");
        let t = rfc3339(now);
        raw.append(t.as_str());
        raw.append("] ");
        raw.append(host);
        raw.append(" ");
        raw.append(source);
        raw.append(" ");
        raw.append(msg);
        let r = SecurityEvent {
            id: new_uuid(),
            session_id: owned(session_id),
            timestamp: now,
            source: EventSource::from_str(source),
            event_type: owned(etype),
            message: owned(msg),
            host: owned(host),
            source_ip: Some(String::from_str("10.0.1.2")),
            destination_ip: None,
            user: Some(String::from_str("svcuser")),
            raw_log: raw,
            mitre_technique: None,
            is_malicious: false,
        };
        assert(noise_message(idx as int) == (source@, etype@, msg@));
        r
    }
}

} // verus!
