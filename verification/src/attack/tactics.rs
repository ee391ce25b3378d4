//! MITRE ATT&CK tactics: the adversary goals that techniques serve.
use vstd::prelude::*;

use crate::text::{starts, str_starts_with};

verus! {

/// MITRE ATT&CK tactics (the "why": adversary goals).
#[derive(Debug, Clone, Copy, PartialEq, Eq, Structural, Hash)]
pub enum Tactic {
    Reconnaissance,
    ResourceDevelopment,
    InitialAccess,
    Execution,
    Persistence,
    PrivilegeEscalation,
    DefenseEvasion,
    CredentialAccess,
    Discovery,
    LateralMovement,
    Collection,
    CommandAndControl,
    Exfiltration,
    Impact,
}

impl Tactic {
    /// The ATT&CK identifier of the tactic.
    pub open spec fn tactic_id(self) -> Seq<char> {
        match self {
            Tactic::Reconnaissance => "TA0043"@,
            Tactic::ResourceDevelopment => "TA0042"@,
            Tactic::InitialAccess => "TA0001"@,
            Tactic::Execution => "TA0002"@,
            Tactic::Persistence => "TA0003"@,
            Tactic::PrivilegeEscalation => "TA0004"@,
            Tactic::DefenseEvasion => "TA0005"@,
            Tactic::CredentialAccess => "TA0006"@,
            Tactic::Discovery => "TA0007"@,
            Tactic::LateralMovement => "TA0008"@,
            Tactic::Collection => "TA0009"@,
            Tactic::CommandAndControl => "TA0011"@,
            Tactic::Exfiltration => "TA0010"@,
            Tactic::Impact => "TA0040"@,
        }
    }

    /// The display name of the tactic.
    pub open spec fn display(self) -> Seq<char> {
        match self {
            Tactic::Reconnaissance => "Reconnaissance"@,
            Tactic::ResourceDevelopment => "Resource Development"@,
            Tactic::InitialAccess => "Initial Access"@,
            Tactic::Execution => "Execution"@,
            Tactic::Persistence => "Persistence"@,
            Tactic::PrivilegeEscalation => "Privilege Escalation"@,
            Tactic::DefenseEvasion => "Defense Evasion"@,
            Tactic::CredentialAccess => "Credential Access"@,
            Tactic::Discovery => "Discovery"@,
            Tactic::LateralMovement => "Lateral Movement"@,
            Tactic::Collection => "Collection"@,
            Tactic::CommandAndControl => "Command and Control"@,
            Tactic::Exfiltration => "Exfiltration"@,
            Tactic::Impact => "Impact"@,
        }
    }

    /// The tactic that a technique identifier's prefix maps to; the rules
    /// are tried in order and the first prefix that matches wins.
    pub open spec fn of_technique(t: Seq<char>) -> Option<Tactic> {
        if starts(t, "T1566"@) {
            Some(Tactic::InitialAccess)
        } else if starts(t, "T1059"@) {
            Some(Tactic::Execution)
        } else if starts(t, "T1547"@) || starts(t, "T1053"@) {
            Some(Tactic::Persistence)
        } else if starts(t, "T1068"@) || starts(t, "T1134"@) {
            Some(Tactic::PrivilegeEscalation)
        } else if starts(t, "T1003"@) || starts(t, "T1110"@) {
            Some(Tactic::CredentialAccess)
        } else if starts(t, "T1021"@) || starts(t, "T1550"@) {
            Some(Tactic::LateralMovement)
        } else if starts(t, "T1048"@) || starts(t, "T1041"@) {
            Some(Tactic::Exfiltration)
        } else if starts(t, "T1486"@) || starts(t, "T1490"@) {
            Some(Tactic::Impact)
        } else if starts(t, "T1071"@) || starts(t, "T1095"@) {
            Some(Tactic::CommandAndControl)
        } else if starts(t, "T1046"@) || starts(t, "T1069"@) {
            Some(Tactic::Discovery)
        } else {
            None
        }
    }

    pub fn id(&self) -> (r: &'static str)
        ensures
            r@ == self.tactic_id(),
    {
        match self {
            Tactic::Reconnaissance => "TA0043",
            Tactic::ResourceDevelopment => "TA0042",
            Tactic::InitialAccess => "TA0001",
            Tactic::Execution => "TA0002",
            Tactic::Persistence => "TA0003",
            Tactic::PrivilegeEscalation => "TA0004",
            Tactic::DefenseEvasion => "TA0005",
            Tactic::CredentialAccess => "TA0006",
            Tactic::Discovery => "TA0007",
            Tactic::LateralMovement => "TA0008",
            Tactic::Collection => "TA0009",
            Tactic::CommandAndControl => "TA0011",
            Tactic::Exfiltration => "TA0010",
            Tactic::Impact => "TA0040",
        }
    }

    pub fn name(&self) -> (r: &'static str)
        ensures
            r@ == self.display(),
    {
        match self {
            Tactic::Reconnaissance => "Reconnaissance",
            Tactic::ResourceDevelopment => "Resource Development",
            Tactic::InitialAccess => "Initial Access",
            Tactic::Execution => "Execution",
            Tactic::Persistence => "Persistence",
            Tactic::PrivilegeEscalation => "Privilege Escalation",
            Tactic::DefenseEvasion => "Defense Evasion",
            Tactic::CredentialAccess => "Credential Access",
            Tactic::Discovery => "Discovery",
            Tactic::LateralMovement => "Lateral Movement",
            Tactic::Collection => "Collection",
            Tactic::CommandAndControl => "Command and Control",
            Tactic::Exfiltration => "Exfiltration",
            Tactic::Impact => "Impact",
        }
    }

    /// Maps common technique prefixes to tactics.
    pub fn from_technique_id(tid: &str) -> (r: Option<Tactic>)
        ensures
            r == Self::of_technique(tid@),
    {
        if str_starts_with(tid, "T1566") {
            Some(Tactic::InitialAccess)
        } else if str_starts_with(tid, "T1059") {
            Some(Tactic::Execution)
        } else if str_starts_with(tid, "T1547") || str_starts_with(tid, "T1053") {
            Some(Tactic::Persistence)
        } else if str_starts_with(tid, "T1068") || str_starts_with(tid, "T1134") {
            Some(Tactic::PrivilegeEscalation)
        } else if str_starts_with(tid, "T1003") || str_starts_with(tid, "T1110") {
            Some(Tactic::CredentialAccess)
        } else if str_starts_with(tid, "T1021") || str_starts_with(tid, "T1550") {
            Some(Tactic::LateralMovement)
        } else if str_starts_with(tid, "T1048") || str_starts_with(tid, "T1041") {
            Some(Tactic::Exfiltration)
        } else if str_starts_with(tid, "T1486") || str_starts_with(tid, "T1490") {
            Some(Tactic::Impact)
        } else if str_starts_with(tid, "T1071") || str_starts_with(tid, "T1095") {
            Some(Tactic::CommandAndControl)
        } else if str_starts_with(tid, "T1046") || str_starts_with(tid, "T1069") {
            Some(Tactic::Discovery)
        } else {
            None
        }
    }
}

} // verus!
