use vstd::prelude::*;

use crate::clock::{new_uuid, now_micros, uuid_text};
use crate::text::{
    all_ascii, ascii_lower, lemma_lower_word_fixed, lower, lower_word, owned, str_eq, str_lower,
};

verus! {

/// The log source an event came from.
#[derive(Debug, Clone, Copy, PartialEq, Eq, Structural)]
pub enum EventSource {
    Authentication,
    Firewall,
    Endpoint,
    WebServer,
    Email,
    Network,
    Dns,
    Syslog,
    Unknown,
}

impl EventSource {
    pub open spec fn name(self) -> Seq<char> {
        match self {
            EventSource::Authentication => "authentication"@,
            EventSource::Firewall => "firewall"@,
            EventSource::Endpoint => "endpoint"@,
            EventSource::WebServer => "web_server"@,
            EventSource::Email => "email"@,
            EventSource::Network => "network"@,
            EventSource::Dns => "dns"@,
            EventSource::Syslog => "syslog"@,
            EventSource::Unknown => "unknown"@,
        }
    }

    /// The source named by an already lowercased text; anything unknown
    /// is `Unknown`.
    pub open spec fn from_lower_spec(l: Seq<char>) -> EventSource {
        if l == "authentication"@ || l == "auth"@ {
            EventSource::Authentication
        } else if l == "firewall"@ {
            EventSource::Firewall
        } else if l == "endpoint"@ {
            EventSource::Endpoint
        } else if l == "web_server"@ || l == "web"@ {
            EventSource::WebServer
        } else if l == "email"@ {
            EventSource::Email
        } else if l == "network"@ {
            EventSource::Network
        } else if l == "dns"@ {
            EventSource::Dns
        } else if l == "syslog"@ {
            EventSource::Syslog
        } else {
            EventSource::Unknown
        }
    }

    pub fn as_str(&self) -> (r: &'static str)
        ensures
            r@ == self.name(),
    {
        match self {
            EventSource::Authentication => "authentication",
            EventSource::Firewall => "firewall",
            EventSource::Endpoint => "endpoint",
            EventSource::WebServer => "web_server",
            EventSource::Email => "email",
            EventSource::Network => "network",
            EventSource::Dns => "dns",
            EventSource::Syslog => "syslog",
            EventSource::Unknown => "unknown",
        }
    }

    /// The source named by a text that is already lowercase.
    pub fn from_lower(l: &str) -> (r: EventSource)
        ensures
            r == Self::from_lower_spec(l@),
    {
        if str_eq(l, "authentication") || str_eq(l, "auth") {
            EventSource::Authentication
        } else if str_eq(l, "firewall") {
            EventSource::Firewall
        } else if str_eq(l, "endpoint") {
            EventSource::Endpoint
        } else if str_eq(l, "web_server") || str_eq(l, "web") {
            EventSource::WebServer
        } else if str_eq(l, "email") {
            EventSource::Email
        } else if str_eq(l, "network") {
            EventSource::Network
        } else if str_eq(l, "dns") {
            EventSource::Dns
        } else if str_eq(l, "syslog") {
            EventSource::Syslog
        } else {
            EventSource::Unknown
        }
    }

    /// The source named by a text, compared case-insensitively.
    pub fn from_str(s: &str) -> (r: EventSource)
        ensures
            r == Self::from_lower_spec(str_lower(s@)),
            all_ascii(s@) ==> r == Self::from_lower_spec(ascii_lower(s@)),
    {
        let l = lower(s);
        Self::from_lower(l.as_str())
    }

    /// A source's name reads back as the same source: the name is ASCII,
    /// so `from_str` lowercases it as ASCII, which leaves it unchanged.
    pub proof fn lemma_name_round_trip(self)
        ensures
            all_ascii(self.name()),
            Self::from_lower_spec(ascii_lower(self.name())) == self,
    {
        reveal_strlit("authentication");
        reveal_strlit("auth");
        reveal_strlit("firewall");
        reveal_strlit("endpoint");
        reveal_strlit("web_server");
        reveal_strlit("web");
        reveal_strlit("email");
        reveal_strlit("network");
        reveal_strlit("dns");
        reveal_strlit("syslog");
        reveal_strlit("unknown");
        assert(lower_word(self.name()));
        lemma_lower_word_fixed(self.name());
        let n = self.name();
        match self {
            EventSource::Authentication => {},
            EventSource::Firewall => { assert(n != "authentication"@ && n != "auth"@); },
            EventSource::Endpoint => { assert(n != "authentication"@ && n != "auth"@); assert(n[0] != "firewall"@[0]); },
            EventSource::WebServer => { assert(n.len() == 10); },
            EventSource::Email => { assert(n.len() == 5); },
            EventSource::Network => { assert(n.len() == 7); assert(n[0] != "firewall"@[0]); },
            EventSource::Dns => { assert(n.len() == 3); assert(n[0] != "web"@[0]); },
            EventSource::Syslog => { assert(n.len() == 6); },
            EventSource::Unknown => { assert(n.len() == 7); assert(n[0] != "network"@[0]); },
        }
    }
}

/// A normalized security event. `timestamp` is in microseconds since the
/// Unix epoch (UTC).
#[derive(Debug, Clone)]
pub struct SecurityEvent {
    pub id: String,
    pub session_id: String,
    pub timestamp: i64,
    pub source: EventSource,
    pub event_type: String,
    pub message: String,
    pub host: String,
    pub source_ip: Option<String>,
    pub destination_ip: Option<String>,
    pub user: Option<String>,
    pub raw_log: String,
    pub mitre_technique: Option<String>,
    pub is_malicious: bool,
}

impl SecurityEvent {
    /// A benign event observed now, with a fresh identifier; the raw log is
    /// the message.
    pub fn new(session_id: &str, source: EventSource, event_type: &str, message: &str, host: &str) -> (r: SecurityEvent)
        ensures
            uuid_text(r.id@),
            r.session_id@ == session_id@,
            r.source == source,
            r.event_type@ == event_type@,
            r.message@ == message@,
            r.host@ == host@,
            r.source_ip is None,
            r.destination_ip is None,
            r.user is None,
            r.raw_log@ == message@,
            r.mitre_technique is None,
            !r.is_malicious,
    {
        SecurityEvent {
            id: new_uuid(),
            session_id: owned(session_id),
            timestamp: now_micros(),
            source,
            event_type: owned(event_type),
            message: owned(message),
            host: owned(host),
            source_ip: None,
            destination_ip: None,
            user: None,
            raw_log: owned(message),
            mitre_technique: None,
            is_malicious: false,
        }
    }
}

} // verus!
