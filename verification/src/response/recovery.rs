//! Recovery operations: restoring systems to operational state.
use vstd::prelude::*;

use crate::text::owned;

use super::actions::{ResponseAction, ResponseActionType};
use super::containment::opt_string_view;

verus! {

pub open spec fn recover_details(details: Seq<char>) -> Seq<char> {
    "Recovery initiated: "@ + details
}

pub open spec fn close_details() -> Seq<char> {
    "Incident formally closed after recovery verification"@
}

/// Recovery operations.
pub struct RecoveryOps;

impl RecoveryOps {
    /// Starts recovering the systems of an incident.
    pub fn recover_systems(session_id: &str, incident_id: &str, details: &str) -> (r: ResponseAction)
        ensures
            r.session_id@ == session_id@,
            r.action_type == ResponseActionType::Recover,
            r.target@ == incident_id@,
            r.details@ == recover_details(details@),
            opt_string_view(r.incident_id) == Some(incident_id@),
            r.success,
    {
        let mut d = String::from_str("Recovery initiated: ");
        d.append(details);
        let mut action = ResponseAction::new(session_id, ResponseActionType::Recover, incident_id, d.as_str());
        action.incident_id = Some(owned(incident_id));
        action
    }

    /// Formally closes an incident.
    pub fn close_incident(session_id: &str, incident_id: &str) -> (r: ResponseAction)
        ensures
            r.session_id@ == session_id@,
            r.action_type == ResponseActionType::CloseIncident,
            r.target@ == incident_id@,
            r.details@ == close_details(),
            opt_string_view(r.incident_id) == Some(incident_id@),
            r.success,
    {
        let mut action = ResponseAction::new(
            session_id,
            ResponseActionType::CloseIncident,
            incident_id,
            "Incident formally closed after recovery verification",
        );
        action.incident_id = Some(owned(incident_id));
        action
    }
}

} // verus!
