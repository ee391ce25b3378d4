//! Containment operations: isolating and blocking threats.
use vstd::prelude::*;

use crate::text::owned;

use super::actions::{ResponseAction, ResponseActionType};

verus! {

/// An optional borrowed string as an optional owned string.
pub fn owned_opt(s: Option<&str>) -> (r: Option<String>)
    ensures
        match s {
            Some(x) => r matches Some(y) && y@ == x@,
            None => r is None,
        },
{
    match s {
        Some(x) => Some(owned(x)),
        None => None,
    }
}

/// The optional incident id as texts.
pub open spec fn opt_view(s: Option<&str>) -> Option<Seq<char>> {
    match s {
        Some(x) => Some(x@),
        None => None,
    }
}

/// The optional string as texts.
pub open spec fn opt_string_view(s: Option<String>) -> Option<Seq<char>> {
    match s {
        Some(x) => Some(x@),
        None => None,
    }
}

pub open spec fn isolate_details(host: Seq<char>) -> Seq<char> {
    "Host '"@ + host + "' isolated from network — all inbound/outbound connections blocked"@
}

pub open spec fn block_details(ip: Seq<char>) -> Seq<char> {
    "IP address '"@ + ip + "' blocked at firewall — all traffic from/to this IP denied"@
}

pub open spec fn contain_details(details: Seq<char>) -> Seq<char> {
    "Incident contained: "@ + details
}

/// Containment operations: isolating and blocking threats.
pub struct ContainmentOps;

impl ContainmentOps {
    /// Cuts a host off the network.
    pub fn isolate_host(session_id: &str, incident_id: Option<&str>, hostname: &str) -> (r: ResponseAction)
        ensures
            r.session_id@ == session_id@,
            r.action_type == ResponseActionType::IsolateHost,
            r.target@ == hostname@,
            r.details@ == isolate_details(hostname@),
            opt_string_view(r.incident_id) == opt_view(incident_id),
            r.success,
    {
        let mut d = String::from_str("Host '");
        d.append(hostname);
        d.append("' isolated from network — all inbound/outbound connections blocked");
        let mut action = ResponseAction::new(session_id, ResponseActionType::IsolateHost, hostname, d.as_str());
        action.incident_id = owned_opt(incident_id);
        action
    }

    /// Blocks an address at the firewall.
    pub fn block_ip(session_id: &str, incident_id: Option<&str>, ip: &str) -> (r: ResponseAction)
        ensures
            r.session_id@ == session_id@,
            r.action_type == ResponseActionType::BlockIp,
            r.target@ == ip@,
            r.details@ == block_details(ip@),
            opt_string_view(r.incident_id) == opt_view(incident_id),
            r.success,
    {
        let mut d = String::from_str("IP address '");
        d.append(ip);
        d.append("' blocked at firewall — all traffic from/to this IP denied");
        let mut action = ResponseAction::new(session_id, ResponseActionType::BlockIp, ip, d.as_str());
        action.incident_id = owned_opt(incident_id);
        action
    }

    /// Marks an incident as contained.
    pub fn contain_incident(session_id: &str, incident_id: &str, details: &str) -> (r: ResponseAction)
        ensures
            r.session_id@ == session_id@,
            r.action_type == ResponseActionType::Contain,
            r.target@ == incident_id@,
            r.details@ == contain_details(details@),
            opt_string_view(r.incident_id) == Some(incident_id@),
            r.success,
    {
        let mut d = String::from_str("Incident contained: ");
        d.append(details);
        let mut action = ResponseAction::new(session_id, ResponseActionType::Contain, incident_id, d.as_str());
        action.incident_id = Some(owned(incident_id));
        action
    }
}

} // verus!
