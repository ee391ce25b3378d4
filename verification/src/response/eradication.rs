//! Eradication operations: removing malware, accounts, persistence.
use vstd::prelude::*;

use crate::text::owned;

use super::actions::{ResponseAction, ResponseActionType};
use super::containment::{opt_string_view, opt_view, owned_opt};

verus! {

pub open spec fn disable_details(account: Seq<char>) -> Seq<char> {
    "Account '"@ + account + "' disabled — login blocked, active sessions terminated"@
}

pub open spec fn quarantine_details(path: Seq<char>) -> Seq<char> {
    "File '"@ + path + "' quarantined — moved to secure quarantine, execution prevented"@
}

pub open spec fn eradicate_details(details: Seq<char>) -> Seq<char> {
    "Eradication complete: "@ + details
}

/// Eradication operations.
pub struct EradicationOps;

impl EradicationOps {
    /// Disables a user account.
    pub fn disable_account(session_id: &str, incident_id: Option<&str>, account: &str) -> (r: ResponseAction)
        ensures
            r.session_id@ == session_id@,
            r.action_type == ResponseActionType::DisableAccount,
            r.target@ == account@,
            r.details@ == disable_details(account@),
            opt_string_view(r.incident_id) == opt_view(incident_id),
            r.success,
    {
        let mut d = String::from_str("Account '");
        d.append(account);
        d.append("' disabled — login blocked, active sessions terminated");
        let mut action = ResponseAction::new(session_id, ResponseActionType::DisableAccount, account, d.as_str());
        action.incident_id = owned_opt(incident_id);
        action
    }

    /// Quarantines a file.
    pub fn quarantine_file(session_id: &str, incident_id: Option<&str>, file_path: &str) -> (r: ResponseAction)
        ensures
            r.session_id@ == session_id@,
            r.action_type == ResponseActionType::QuarantineFile,
            r.target@ == file_path@,
            r.details@ == quarantine_details(file_path@),
            opt_string_view(r.incident_id) == opt_view(incident_id),
            r.success,
    {
        let mut d = String::from_str("File '");
        d.append(file_path);
        d.append("' quarantined — moved to secure quarantine, execution prevented");
        let mut action = ResponseAction::new(session_id, ResponseActionType::QuarantineFile, file_path, d.as_str());
        action.incident_id = owned_opt(incident_id);
        action
    }

    /// Marks the threat of an incident as eradicated.
    pub fn eradicate(session_id: &str, incident_id: &str, details: &str) -> (r: ResponseAction)
        ensures
            r.session_id@ == session_id@,
            r.action_type == ResponseActionType::Eradicate,
            r.target@ == incident_id@,
            r.details@ == eradicate_details(details@),
            opt_string_view(r.incident_id) == Some(incident_id@),
            r.success,
    {
        let mut d = String::from_str("Eradication complete: ");
        d.append(details);
        let mut action = ResponseAction::new(session_id, ResponseActionType::Eradicate, incident_id, d.as_str());
        action.incident_id = Some(owned(incident_id));
        action
    }
}

} // verus!
