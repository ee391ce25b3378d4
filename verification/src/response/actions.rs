//! Response actions an analyst can take.
use vstd::prelude::*;

use crate::clock::{new_uuid, now_micros, uuid_text};
use crate::text::{copy_opt, owned, str_eq};

verus! {

/// All supported response action types.
#[derive(Debug, Clone, Copy, PartialEq, Eq, Structural)]
pub enum ResponseActionType {
    Acknowledge,
    Investigate,
    IsolateHost,
    BlockIp,
    DisableAccount,
    QuarantineFile,
    Contain,
    Eradicate,
    Recover,
    CloseIncident,
}

impl ResponseActionType {
    /// The wire name of an action type.
    pub open spec fn name(self) -> Seq<char> {
        match self {
            ResponseActionType::Acknowledge => "acknowledge"@,
            ResponseActionType::Investigate => "investigate"@,
            ResponseActionType::IsolateHost => "isolate_host"@,
            ResponseActionType::BlockIp => "block_ip"@,
            ResponseActionType::DisableAccount => "disable_account"@,
            ResponseActionType::QuarantineFile => "quarantine_file"@,
            ResponseActionType::Contain => "contain"@,
            ResponseActionType::Eradicate => "eradicate"@,
            ResponseActionType::Recover => "recover"@,
            ResponseActionType::CloseIncident => "close_incident"@,
        }
    }

    /// The action type a wire name denotes (names are case-sensitive).
    pub open spec fn parse(s: Seq<char>) -> Option<ResponseActionType> {
        if s == "acknowledge"@ {
            Some(ResponseActionType::Acknowledge)
        } else if s == "investigate"@ {
            Some(ResponseActionType::Investigate)
        } else if s == "isolate_host"@ {
            Some(ResponseActionType::IsolateHost)
        } else if s == "block_ip"@ {
            Some(ResponseActionType::BlockIp)
        } else if s == "disable_account"@ {
            Some(ResponseActionType::DisableAccount)
        } else if s == "quarantine_file"@ {
            Some(ResponseActionType::QuarantineFile)
        } else if s == "contain"@ {
            Some(ResponseActionType::Contain)
        } else if s == "eradicate"@ {
            Some(ResponseActionType::Eradicate)
        } else if s == "recover"@ {
            Some(ResponseActionType::Recover)
        } else if s == "close_incident"@ {
            Some(ResponseActionType::CloseIncident)
        } else {
            None
        }
    }

    pub open spec fn title(self) -> Seq<char> {
        match self {
            ResponseActionType::Acknowledge => "Acknowledge Alert"@,
            ResponseActionType::Investigate => "Investigate"@,
            ResponseActionType::IsolateHost => "Isolate Host"@,
            ResponseActionType::BlockIp => "Block IP Address"@,
            ResponseActionType::DisableAccount => "Disable User Account"@,
            ResponseActionType::QuarantineFile => "Quarantine File"@,
            ResponseActionType::Contain => "Contain Incident"@,
            ResponseActionType::Eradicate => "Eradicate Threat"@,
            ResponseActionType::Recover => "Recover Systems"@,
            ResponseActionType::CloseIncident => "Close Incident"@,
        }
    }

    /// The action type a wire name denotes, if any.
    pub fn from_str(s: &str) -> (r: Option<ResponseActionType>)
        ensures
            r == Self::parse(s@),
    {
        if str_eq(s, "acknowledge") {
            Some(ResponseActionType::Acknowledge)
        } else if str_eq(s, "investigate") {
            Some(ResponseActionType::Investigate)
        } else if str_eq(s, "isolate_host") {
            Some(ResponseActionType::IsolateHost)
        } else if str_eq(s, "block_ip") {
            Some(ResponseActionType::BlockIp)
        } else if str_eq(s, "disable_account") {
            Some(ResponseActionType::DisableAccount)
        } else if str_eq(s, "quarantine_file") {
            Some(ResponseActionType::QuarantineFile)
        } else if str_eq(s, "contain") {
            Some(ResponseActionType::Contain)
        } else if str_eq(s, "eradicate") {
            Some(ResponseActionType::Eradicate)
        } else if str_eq(s, "recover") {
            Some(ResponseActionType::Recover)
        } else if str_eq(s, "close_incident") {
            Some(ResponseActionType::CloseIncident)
        } else {
            None
        }
    }

    pub fn as_str(&self) -> (r: &'static str)
        ensures
            r@ == self.name(),
    {
        match self {
            ResponseActionType::Acknowledge => "acknowledge",
            ResponseActionType::Investigate => "investigate",
            ResponseActionType::IsolateHost => "isolate_host",
            ResponseActionType::BlockIp => "block_ip",
            ResponseActionType::DisableAccount => "disable_account",
            ResponseActionType::QuarantineFile => "quarantine_file",
            ResponseActionType::Contain => "contain",
            ResponseActionType::Eradicate => "eradicate",
            ResponseActionType::Recover => "recover",
            ResponseActionType::CloseIncident => "close_incident",
        }
    }

    /// The human-readable name of an action type.
    pub fn display_name(&self) -> (r: &'static str)
        ensures
            r@ == self.title(),
    {
        match self {
            ResponseActionType::Acknowledge => "Acknowledge Alert",
            ResponseActionType::Investigate => "Investigate",
            ResponseActionType::IsolateHost => "Isolate Host",
            ResponseActionType::BlockIp => "Block IP Address",
            ResponseActionType::DisableAccount => "Disable User Account",
            ResponseActionType::QuarantineFile => "Quarantine File",
            ResponseActionType::Contain => "Contain Incident",
            ResponseActionType::Eradicate => "Eradicate Threat",
            ResponseActionType::Recover => "Recover Systems",
            ResponseActionType::CloseIncident => "Close Incident",
        }
    }

    /// Every action type reads back from its wire name.
    pub proof fn lemma_wire_name_round_trip(self)
        ensures
            Self::parse(self.name()) == Some(self),
    {
        reveal_strlit("acknowledge");
        reveal_strlit("investigate");
        reveal_strlit("isolate_host");
        reveal_strlit("block_ip");
        reveal_strlit("disable_account");
        reveal_strlit("quarantine_file");
        reveal_strlit("contain");
        reveal_strlit("eradicate");
        reveal_strlit("recover");
        reveal_strlit("close_incident");
        match self {
            ResponseActionType::Acknowledge => {
                assert(Self::parse("acknowledge"@) == Some(self));
            },
            ResponseActionType::Investigate => {
                assert("investigate"@[0] != "acknowledge"@[0]);
                assert(Self::parse("investigate"@) == Some(self));
            },
            ResponseActionType::IsolateHost => {
                assert("isolate_host"@.len() != "acknowledge"@.len());
                assert("isolate_host"@.len() != "investigate"@.len());
                assert(Self::parse("isolate_host"@) == Some(self));
            },
            ResponseActionType::BlockIp => {
                assert("block_ip"@.len() != "acknowledge"@.len());
                assert("block_ip"@.len() != "investigate"@.len());
                assert("block_ip"@.len() != "isolate_host"@.len());
                assert(Self::parse("block_ip"@) == Some(self));
            },
            ResponseActionType::DisableAccount => {
                assert("disable_account"@.len() != "acknowledge"@.len());
                assert("disable_account"@.len() != "investigate"@.len());
                assert("disable_account"@.len() != "isolate_host"@.len());
                assert("disable_account"@.len() != "block_ip"@.len());
                assert(Self::parse("disable_account"@) == Some(self));
            },
            ResponseActionType::QuarantineFile => {
                assert("quarantine_file"@.len() != "acknowledge"@.len());
                assert("quarantine_file"@.len() != "investigate"@.len());
                assert("quarantine_file"@.len() != "isolate_host"@.len());
                assert("quarantine_file"@.len() != "block_ip"@.len());
                assert("quarantine_file"@[0] != "disable_account"@[0]);
                assert(Self::parse("quarantine_file"@) == Some(self));
            },
            ResponseActionType::Contain => {
                assert("contain"@.len() != "acknowledge"@.len());
                assert("contain"@.len() != "investigate"@.len());
                assert("contain"@.len() != "isolate_host"@.len());
                assert("contain"@.len() != "block_ip"@.len());
                assert("contain"@.len() != "disable_account"@.len());
                assert("contain"@.len() != "quarantine_file"@.len());
                assert(Self::parse("contain"@) == Some(self));
            },
            ResponseActionType::Eradicate => {
                assert("eradicate"@.len() != "acknowledge"@.len());
                assert("eradicate"@.len() != "investigate"@.len());
                assert("eradicate"@.len() != "isolate_host"@.len());
                assert("eradicate"@.len() != "block_ip"@.len());
                assert("eradicate"@.len() != "disable_account"@.len());
                assert("eradicate"@.len() != "quarantine_file"@.len());
                assert("eradicate"@.len() != "contain"@.len());
                assert(Self::parse("eradicate"@) == Some(self));
            },
            ResponseActionType::Recover => {
                assert("recover"@.len() != "acknowledge"@.len());
                assert("recover"@.len() != "investigate"@.len());
                assert("recover"@.len() != "isolate_host"@.len());
                assert("recover"@.len() != "block_ip"@.len());
                assert("recover"@.len() != "disable_account"@.len());
                assert("recover"@.len() != "quarantine_file"@.len());
                assert("recover"@[0] != "contain"@[0]);
                assert("recover"@.len() != "eradicate"@.len());
                assert(Self::parse("recover"@) == Some(self));
            },
            ResponseActionType::CloseIncident => {
                assert("close_incident"@.len() != "acknowledge"@.len());
                assert("close_incident"@.len() != "investigate"@.len());
                assert("close_incident"@.len() != "isolate_host"@.len());
                assert("close_incident"@.len() != "block_ip"@.len());
                assert("close_incident"@.len() != "disable_account"@.len());
                assert("close_incident"@.len() != "quarantine_file"@.len());
                assert("close_incident"@.len() != "contain"@.len());
                assert("close_incident"@.len() != "eradicate"@.len());
                assert("close_incident"@.len() != "recover"@.len());
                assert(Self::parse("close_incident"@) == Some(self));
            },
        }
    }

    /// A wire name reads as the one action type that has it.
    pub proof fn lemma_wire_name_unique(self, s: Seq<char>)
        ensures
            Self::parse(s) == Some(self) ==> s == self.name(),
    {
    }
}

/// A response action taken by the analyst.
#[derive(Debug, Clone)]
pub struct ResponseAction {
    pub id: String,
    pub session_id: String,
    pub incident_id: Option<String>,
    pub action_type: ResponseActionType,
    pub target: String,
    pub details: String,
    pub success: bool,
}

/// A response action as it is stored. `performed_at` is in microseconds
/// since the Unix epoch (UTC).
#[derive(Debug, Clone)]
pub struct ActionRecord {
    pub id: String,
    pub session_id: String,
    pub incident_id: Option<String>,
    pub action_type: String,
    pub target: String,
    pub details: String,
    pub success: bool,
    pub performed_at: i64,
}

impl ResponseAction {
    /// A successful action with a fresh identifier, tied to no incident.
    pub fn new(session_id: &str, action_type: ResponseActionType, target: &str, details: &str) -> (r: ResponseAction)
        ensures
            uuid_text(r.id@),
            r.session_id@ == session_id@,
            r.incident_id is None,
            r.action_type == action_type,
            r.target@ == target@,
            r.details@ == details@,
            r.success,
    {
        ResponseAction {
            id: new_uuid(),
            session_id: owned(session_id),
            incident_id: None,
            action_type,
            target: owned(target),
            details: owned(details),
            success: true,
        }
    }

    /// The stored form of the action, stamped now.
    pub fn to_record(&self) -> (r: ActionRecord)
        ensures
            r.id == self.id,
            r.session_id == self.session_id,
            r.incident_id == self.incident_id,
            r.action_type@ == self.action_type.name(),
            r.target == self.target,
            r.details == self.details,
            r.success == self.success,
    {
        ActionRecord {
            id: self.id.clone(),
            session_id: self.session_id.clone(),
            incident_id: copy_opt(&self.incident_id),
            action_type: String::from_str(self.action_type.as_str()),
            target: self.target.clone(),
            details: self.details.clone(),
            success: self.success,
            performed_at: now_micros(),
        }
    }
}

} // verus!
