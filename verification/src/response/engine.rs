//! The decisions behind executing an analyst's response request.
use vstd::prelude::*;

use crate::clock::now_micros;
use crate::models::{Alert, AlertStatus};
use crate::text::owned;

use super::actions::{ResponseAction, ResponseActionType};
use super::containment::{
    opt_view, block_details, contain_details, isolate_details, opt_string_view, ContainmentOps,
};
use super::eradication::{disable_details, eradicate_details, quarantine_details, EradicationOps};
use super::recovery::{close_details, recover_details, RecoveryOps};

verus! {

/// An analyst's request to execute a response action.
#[derive(Debug)]
pub struct ExecuteActionRequest {
    pub action_type: String,
    pub target: String,
    pub incident_id: Option<String>,
    pub details: Option<String>,
}

/// The incident a request works on: the given incident, else its target.
pub open spec fn incident_of(req: ExecuteActionRequest) -> Seq<char> {
    match req.incident_id {
        Some(i) => i@,
        None => req.target@,
    }
}

/// The details a request supplies (empty when it supplies none).
pub open spec fn details_of(req: ExecuteActionRequest) -> Seq<char> {
    match req.details {
        Some(d) => d@,
        None => Seq::empty(),
    }
}

/// `a` is the action executing `req` in a session produces, for action
/// type `t`.
pub open spec fn plans(session_id: Seq<char>, req: ExecuteActionRequest, t: ResponseActionType, a: ResponseAction) -> bool {
    let iid = incident_of(req);
    let given = opt_string_view(req.incident_id);
    &&& a.session_id@ == session_id
    &&& a.action_type == t
    &&& a.success
    &&& match t {
        ResponseActionType::IsolateHost => a.target@ == req.target@ && a.details@ == isolate_details(
            req.target@,
        ) && opt_string_view(a.incident_id) == given,
        ResponseActionType::BlockIp => a.target@ == req.target@ && a.details@ == block_details(
            req.target@,
        ) && opt_string_view(a.incident_id) == given,
        ResponseActionType::Contain => a.target@ == iid && a.details@ == contain_details(
            details_of(req),
        ) && opt_string_view(a.incident_id) == Some(iid),
        ResponseActionType::DisableAccount => a.target@ == req.target@ && a.details@
            == disable_details(req.target@) && opt_string_view(a.incident_id) == given,
        ResponseActionType::QuarantineFile => a.target@ == req.target@ && a.details@
            == quarantine_details(req.target@) && opt_string_view(a.incident_id) == given,
        ResponseActionType::Eradicate => a.target@ == iid && a.details@ == eradicate_details(
            details_of(req),
        ) && opt_string_view(a.incident_id) == Some(iid),
        ResponseActionType::Recover => a.target@ == iid && a.details@ == recover_details(
            details_of(req),
        ) && opt_string_view(a.incident_id) == Some(iid),
        ResponseActionType::CloseIncident => a.target@ == iid && a.details@ == close_details()
            && opt_string_view(a.incident_id) == Some(iid),
        ResponseActionType::Acknowledge => a.target@ == req.target@ && a.details@ == "Alert '"@
            + req.target@ + "' acknowledged by analyst"@ && a.incident_id is None,
        ResponseActionType::Investigate => a.target@ == req.target@ && a.details@
            == "Investigation started on: "@ + req.target@ && a.incident_id is None,
    }
}

/// Why a request was refused.
pub open spec fn unknown_type_message(action_type: Seq<char>) -> Seq<char> {
    "Unknown action type: "@ + action_type
}

/// The action an analyst's request asks for: refused when the action type
/// is unknown; otherwise built by the operation of that type, working on
/// the request's incident (or, for incident-level actions without one, on
/// its target).
pub fn build_action(session_id: &str, req: &ExecuteActionRequest) -> (r: Result<ResponseAction, String>)
    ensures
        match ResponseActionType::parse(req.action_type@) {
            None => r matches Err(m) && m@ == unknown_type_message(req.action_type@),
            Some(t) => r matches Ok(a) && plans(session_id@, *req, t, a),
        },
{
    let action_type = match ResponseActionType::from_str(req.action_type.as_str()) {
        Some(t) => t,
        None => {
            let mut m = String::from_str("Unknown action type: ");
            m.append(req.action_type.as_str());
            return Err(m);
        },
    };
    let incident_id: Option<&str> = match &req.incident_id {
        Some(i) => Some(i.as_str()),
        None => None,
    };
    assert(opt_view(incident_id) == opt_string_view(req.incident_id));
    let details: &str = match &req.details {
        Some(d) => d.as_str(),
        None => "",
    };
    let iid: &str = match incident_id {
        Some(i) => i,
        None => req.target.as_str(),
    };
    proof {
        reveal_strlit("");
    }
    assert(details@ == details_of(*req));
    assert(iid@ == incident_of(*req));
    let action = match action_type {
        ResponseActionType::IsolateHost => ContainmentOps::isolate_host(session_id, incident_id, req.target.as_str()),
        ResponseActionType::BlockIp => ContainmentOps::block_ip(session_id, incident_id, req.target.as_str()),
        ResponseActionType::Contain => ContainmentOps::contain_incident(session_id, iid, details),
        ResponseActionType::DisableAccount => EradicationOps::disable_account(session_id, incident_id, req.target.as_str()),
        ResponseActionType::QuarantineFile => EradicationOps::quarantine_file(session_id, incident_id, req.target.as_str()),
        ResponseActionType::Eradicate => EradicationOps::eradicate(session_id, iid, details),
        ResponseActionType::Recover => RecoveryOps::recover_systems(session_id, iid, details),
        ResponseActionType::CloseIncident => RecoveryOps::close_incident(session_id, iid),
        ResponseActionType::Acknowledge => {
            let mut d = String::from_str("Alert '");
            d.append(req.target.as_str());
            d.append("' acknowledged by analyst");
            ResponseAction::new(session_id, ResponseActionType::Acknowledge, req.target.as_str(), d.as_str())
        },
        ResponseActionType::Investigate => {
            let mut d = String::from_str("Investigation started on: ");
            d.append(req.target.as_str());
            ResponseAction::new(session_id, ResponseActionType::Investigate, req.target.as_str(), d.as_str())
        },
    };
    Ok(action)
}

/// Marks an alert acknowledged now (every other field of the alert stays)
/// and returns the action that records it.
pub fn acknowledge(alert: &mut Alert, session_id: &str, alert_id: &str) -> (r: ResponseAction)
    ensures
        final(alert).acknowledged_at is Some,
        *final(alert) == (Alert {
            status: AlertStatus::Acknowledged,
            acknowledged_at: final(alert).acknowledged_at,
            ..*old(alert)
        }),
        r.session_id@ == session_id@,
        r.action_type == ResponseActionType::Acknowledge,
        r.target@ == alert_id@,
        r.details@ == "Alert acknowledged: "@ + old(alert).title@,
        r.incident_id is None,
        r.success,
{
    alert.status = AlertStatus::Acknowledged;
    alert.acknowledged_at = Some(now_micros());
    let mut d = String::from_str("Alert acknowledged: ");
    d.append(alert.title.as_str());
    ResponseAction::new(session_id, ResponseActionType::Acknowledge, alert_id, d.as_str())
}

} // verus!
