//! The MITRE ATT&CK technique registry used by the simulator.
use vstd::prelude::*;

use crate::text::{owned, str_eq};

use super::tactics::Tactic;
use crate::text::starts;

verus! {

/// A technique entry as plain text: identifier, name, description,
/// tactic and detection hint.
pub type TechniqueEntry = (Seq<char>, Seq<char>, Seq<char>, Tactic, Seq<char>);

/// The number of techniques in the registry.
pub const REGISTRY_LEN: usize = 20;

/// A MITRE ATT&CK technique entry.
#[derive(Debug, Clone)]
pub struct Technique {
    pub id: String,
    pub name: String,
    pub description: String,
    pub tactic: Tactic,
    pub detection_hint: String,
}

impl Technique {
    /// The entry as plain text.
    pub open spec fn entry(self) -> TechniqueEntry {
        (self.id@, self.name@, self.description@, self.tactic, self.detection_hint@)
    }

    pub fn new(id: &str, name: &str, description: &str, tactic: Tactic, detection_hint: &str) -> (r: Self)
        ensures
            r.entry() == (id@, name@, description@, tactic, detection_hint@),
    {
        Technique {
            id: owned(id),
            name: owned(name),
            description: owned(description),
            tactic,
            detection_hint: owned(detection_hint),
        }
    }
}

/// The registry's entry at position `i`, in registry order.
pub open spec fn registry_entry(i: int) -> TechniqueEntry {
    if i == 0 {
        (
            "T1566.001"@,
            "Spearphishing Attachment"@,
            "Adversaries send spearphishing emails with malicious attachments"@,
            Tactic::InitialAccess,
            "Monitor for suspicious email attachments, especially Office documents with macros"@,
        )
    } else if i == 1 {
        (
            "T1059.001"@,
            "PowerShell"@,
            "Adversaries use PowerShell commands and scripts for execution"@,
            Tactic::Execution,
            "Monitor PowerShell process creation with suspicious parameters like -enc, -nop, -w hidden"@,
        )
    } else if i == 2 {
        (
            "T1059.004"@,
            "Unix Shell"@,
            "Adversaries use Unix shell commands for execution"@,
            Tactic::Execution,
            "Monitor for shell processes spawned by web server processes"@,
        )
    } else if i == 3 {
        (
            "T1110.001"@,
            "Password Guessing"@,
            "Adversaries try commonly used passwords against many accounts"@,
            Tactic::CredentialAccess,
            "Monitor for multiple failed login attempts from the same source IP"@,
        )
    } else if i == 4 {
        (
            "T1003.001"@,
            "LSASS Memory"@,
            "Adversaries dump credentials from LSASS memory"@,
            Tactic::CredentialAccess,
            "Monitor for processes accessing lsass.exe memory"@,
        )
    } else if i == 5 {
        (
            "T1550.002"@,
            "Pass the Hash"@,
            "Adversaries use stolen NTLM hashes to authenticate without the actual password"@,
            Tactic::LateralMovement,
            "Look for NTLM authentication without interactive login from unexpected sources"@,
        )
    } else if i == 6 {
        (
            "T1021.002"@,
            "SMB/Windows Admin Shares"@,
            "Adversaries use Valid Accounts to interact with a remote network share using Server Message Block (SMB)"@,
            Tactic::LateralMovement,
            "Monitor for unusual SMB connections to administrative shares (ADMIN$, C$)"@,
        )
    } else if i == 7 {
        (
            "T1047"@,
            "Windows Management Instrumentation"@,
            "Adversaries use WMI to execute malicious code on remote systems"@,
            Tactic::Execution,
            "Monitor for WMI process creation involving cmd.exe or PowerShell on remote hosts"@,
        )
    } else if i == 8 {
        (
            "T1547.001"@,
            "Registry Run Keys"@,
            "Adversaries achieve persistence by adding programs to registry run keys"@,
            Tactic::Persistence,
            "Monitor for modifications to Run and RunOnce registry keys"@,
        )
    } else if i == 9 {
        (
            "T1053.005"@,
            "Scheduled Task"@,
            "Adversaries use the Windows Task Scheduler to execute programs at boot or on a schedule"@,
            Tactic::Persistence,
            "Monitor for new scheduled task creation, especially by non-admin processes"@,
        )
    } else if i == 10 {
        (
            "T1486"@,
            "Data Encrypted for Impact"@,
            "Adversaries encrypt data on target systems to interrupt availability"@,
            Tactic::Impact,
            "Monitor for rapid bulk file modification/rename operations"@,
        )
    } else if i == 11 {
        (
            "T1490"@,
            "Inhibit System Recovery"@,
            "Adversaries delete shadow copies and backups to prevent recovery"@,
            Tactic::Impact,
            "Monitor for vssadmin.exe or wmic calls to delete shadow copies"@,
        )
    } else if i == 12 {
        (
            "T1048"@,
            "Exfiltration Over Alternative Protocol"@,
            "Adversaries exfiltrate data over a different protocol (DNS, ICMP)"@,
            Tactic::Exfiltration,
            "Monitor for unusual outbound traffic volumes or protocols (DNS TXT records, ICMP)"@,
        )
    } else if i == 13 {
        (
            "T1048.003"@,
            "Exfiltration Over Unencrypted/Obfuscated Non-C2 Protocol"@,
            "Adversaries use DNS tunneling for exfiltration"@,
            Tactic::Exfiltration,
            "Monitor for abnormally large DNS TXT record queries"@,
        )
    } else if i == 14 {
        (
            "T1071.001"@,
            "Web Protocols"@,
            "Adversaries use HTTP/HTTPS for C2 communications"@,
            Tactic::CommandAndControl,
            "Monitor for periodic outbound HTTPS connections to unknown external IPs"@,
        )
    } else if i == 15 {
        (
            "T1190"@,
            "Exploit Public-Facing Application"@,
            "Adversaries exploit weaknesses in web applications"@,
            Tactic::InitialAccess,
            "Monitor web application logs for SQL injection, XSS, or directory traversal patterns"@,
        )
    } else if i == 16 {
        (
            "T1505.003"@,
            "Web Shell"@,
            "Adversaries install web shells to maintain persistent access to web servers"@,
            Tactic::Persistence,
            "Monitor web server file systems for newly created executable scripts"@,
        )
    } else if i == 17 {
        (
            "T1046"@,
            "Network Service Scanning"@,
            "Adversaries perform port scanning of internal hosts"@,
            Tactic::Discovery,
            "Monitor for sequential port scan activity from internal hosts"@,
        )
    } else if i == 18 {
        (
            "T1068"@,
            "Exploitation for Privilege Escalation"@,
            "Adversaries exploit vulnerabilities to gain elevated privileges"@,
            Tactic::PrivilegeEscalation,
            "Monitor for processes gaining higher privileges than their parents"@,
        )
    } else {
        (
            "T1134.001"@,
            "Token Impersonation/Theft"@,
            "Adversaries impersonate existing process tokens to escalate privileges"@,
            Tactic::PrivilegeEscalation,
            "Monitor for SeImpersonatePrivilege usage by non-service processes"@,
        )
    }
}

/// The first position at or after `i` whose entry has identifier `id`.
pub open spec fn first_with_id(id: Seq<char>, i: int) -> Option<int>
    decreases REGISTRY_LEN - i,
{
    if i < 0 || i >= REGISTRY_LEN {
        None
    } else if registry_entry(i).0 == id {
        Some(i)
    } else {
        first_with_id(id, i + 1)
    }
}

/// No two registered techniques share an identifier.
pub proof fn lemma_registry_ids_distinct()
    ensures
        forall|i: int, j: int| 0 <= i < j < REGISTRY_LEN ==> #[trigger] registry_entry(i).0 != #[trigger] registry_entry(j).0,
{
    reveal_strlit("T1566.001");
    reveal_strlit("T1059.001");
    reveal_strlit("T1059.004");
    reveal_strlit("T1110.001");
    reveal_strlit("T1003.001");
    reveal_strlit("T1550.002");
    reveal_strlit("T1021.002");
    reveal_strlit("T1047");
    reveal_strlit("T1547.001");
    reveal_strlit("T1053.005");
    reveal_strlit("T1486");
    reveal_strlit("T1490");
    reveal_strlit("T1048");
    reveal_strlit("T1048.003");
    reveal_strlit("T1071.001");
    reveal_strlit("T1190");
    reveal_strlit("T1505.003");
    reveal_strlit("T1046");
    reveal_strlit("T1068");
    reveal_strlit("T1134.001");
    assert forall|i: int, j: int| 0 <= i < j < REGISTRY_LEN implies #[trigger] registry_entry(i).0 != #[trigger] registry_entry(j).0 by {
        if i == 0 && j == 1 {
            assert(registry_entry(0).0[2] != registry_entry(1).0[2]);
        } else if i == 0 && j == 2 {
            assert(registry_entry(0).0[2] != registry_entry(2).0[2]);
        } else if i == 0 && j == 3 {
            assert(registry_entry(0).0[2] != registry_entry(3).0[2]);
        } else if i == 0 && j == 4 {
            assert(registry_entry(0).0[2] != registry_entry(4).0[2]);
        } else if i == 0 && j == 5 {
            assert(registry_entry(0).0[3] != registry_entry(5).0[3]);
        } else if i == 0 && j == 6 {
            assert(registry_entry(0).0[2] != registry_entry(6).0[2]);
        } else if i == 0 && j == 7 {
            assert(registry_entry(0).0.len() != registry_entry(7).0.len());
        } else if i == 0 && j == 8 {
            assert(registry_entry(0).0[3] != registry_entry(8).0[3]);
        } else if i == 0 && j == 9 {
            assert(registry_entry(0).0[2] != registry_entry(9).0[2]);
        } else if i == 0 && j == 10 {
            assert(registry_entry(0).0.len() != registry_entry(10).0.len());
        } else if i == 0 && j == 11 {
            assert(registry_entry(0).0.len() != registry_entry(11).0.len());
        } else if i == 0 && j == 12 {
            assert(registry_entry(0).0.len() != registry_entry(12).0.len());
        } else if i == 0 && j == 13 {
            assert(registry_entry(0).0[2] != registry_entry(13).0[2]);
        } else if i == 0 && j == 14 {
            assert(registry_entry(0).0[2] != registry_entry(14).0[2]);
        } else if i == 0 && j == 15 {
            assert(registry_entry(0).0.len() != registry_entry(15).0.len());
        } else if i == 0 && j == 16 {
            assert(registry_entry(0).0[3] != registry_entry(16).0[3]);
        } else if i == 0 && j == 17 {
            assert(registry_entry(0).0.len() != registry_entry(17).0.len());
        } else if i == 0 && j == 18 {
            assert(registry_entry(0).0.len() != registry_entry(18).0.len());
        } else if i == 0 && j == 19 {
            assert(registry_entry(0).0[2] != registry_entry(19).0[2]);
        } else if i == 1 && j == 2 {
            assert(registry_entry(1).0[8] != registry_entry(2).0[8]);
        } else if i == 1 && j == 3 {
            assert(registry_entry(1).0[2] != registry_entry(3).0[2]);
        } else if i == 1 && j == 4 {
            assert(registry_entry(1).0[3] != registry_entry(4).0[3]);
        } else if i == 1 && j == 5 {
            assert(registry_entry(1).0[2] != registry_entry(5).0[2]);
        } else if i == 1 && j == 6 {
            assert(registry_entry(1).0[3] != registry_entry(6).0[3]);
        } else if i == 1 && j == 7 {
            assert(registry_entry(1).0.len() != registry_entry(7).0.len());
        } else if i == 1 && j == 8 {
            assert(registry_entry(1).0[2] != registry_entry(8).0[2]);
        } else if i == 1 && j == 9 {
            assert(registry_entry(1).0[4] != registry_entry(9).0[4]);
        } else if i == 1 && j == 10 {
            assert(registry_entry(1).0.len() != registry_entry(10).0.len());
        } else if i == 1 && j == 11 {
            assert(registry_entry(1).0.len() != registry_entry(11).0.len());
        } else if i == 1 && j == 12 {
            assert(registry_entry(1).0.len() != registry_entry(12).0.len());
        } else if i == 1 && j == 13 {
            assert(registry_entry(1).0[3] != registry_entry(13).0[3]);
        } else if i == 1 && j == 14 {
            assert(registry_entry(1).0[3] != registry_entry(14).0[3]);
        } else if i == 1 && j == 15 {
            assert(registry_entry(1).0.len() != registry_entry(15).0.len());
        } else if i == 1 && j == 16 {
            assert(registry_entry(1).0[2] != registry_entry(16).0[2]);
        } else if i == 1 && j == 17 {
            assert(registry_entry(1).0.len() != registry_entry(17).0.len());
        } else if i == 1 && j == 18 {
            assert(registry_entry(1).0.len() != registry_entry(18).0.len());
        } else if i == 1 && j == 19 {
            assert(registry_entry(1).0[2] != registry_entry(19).0[2]);
        } else if i == 2 && j == 3 {
            assert(registry_entry(2).0[2] != registry_entry(3).0[2]);
        } else if i == 2 && j == 4 {
            assert(registry_entry(2).0[3] != registry_entry(4).0[3]);
        } else if i == 2 && j == 5 {
            assert(registry_entry(2).0[2] != registry_entry(5).0[2]);
        } else if i == 2 && j == 6 {
            assert(registry_entry(2).0[3] != registry_entry(6).0[3]);
        } else if i == 2 && j == 7 {
            assert(registry_entry(2).0.len() != registry_entry(7).0.len());
        } else if i == 2 && j == 8 {
            assert(registry_entry(2).0[2] != registry_entry(8).0[2]);
        } else if i == 2 && j == 9 {
            assert(registry_entry(2).0[4] != registry_entry(9).0[4]);
        } else if i == 2 && j == 10 {
            assert(registry_entry(2).0.len() != registry_entry(10).0.len());
        } else if i == 2 && j == 11 {
            assert(registry_entry(2).0.len() != registry_entry(11).0.len());
        } else if i == 2 && j == 12 {
            assert(registry_entry(2).0.len() != registry_entry(12).0.len());
        } else if i == 2 && j == 13 {
            assert(registry_entry(2).0[3] != registry_entry(13).0[3]);
        } else if i == 2 && j == 14 {
            assert(registry_entry(2).0[3] != registry_entry(14).0[3]);
        } else if i == 2 && j == 15 {
            assert(registry_entry(2).0.len() != registry_entry(15).0.len());
        } else if i == 2 && j == 16 {
            assert(registry_entry(2).0[2] != registry_entry(16).0[2]);
        } else if i == 2 && j == 17 {
            assert(registry_entry(2).0.len() != registry_entry(17).0.len());
        } else if i == 2 && j == 18 {
            assert(registry_entry(2).0.len() != registry_entry(18).0.len());
        } else if i == 2 && j == 19 {
            assert(registry_entry(2).0[2] != registry_entry(19).0[2]);
        } else if i == 3 && j == 4 {
            assert(registry_entry(3).0[2] != registry_entry(4).0[2]);
        } else if i == 3 && j == 5 {
            assert(registry_entry(3).0[2] != registry_entry(5).0[2]);
        } else if i == 3 && j == 6 {
            assert(registry_entry(3).0[2] != registry_entry(6).0[2]);
        } else if i == 3 && j == 7 {
            assert(registry_entry(3).0.len() != registry_entry(7).0.len());
        } else if i == 3 && j == 8 {
            assert(registry_entry(3).0[2] != registry_entry(8).0[2]);
        } else if i == 3 && j == 9 {
            assert(registry_entry(3).0[2] != registry_entry(9).0[2]);
        } else if i == 3 && j == 10 {
            assert(registry_entry(3).0.len() != registry_entry(10).0.len());
        } else if i == 3 && j == 11 {
            assert(registry_entry(3).0.len() != registry_entry(11).0.len());
        } else if i == 3 && j == 12 {
            assert(registry_entry(3).0.len() != registry_entry(12).0.len());
        } else if i == 3 && j == 13 {
            assert(registry_entry(3).0[2] != registry_entry(13).0[2]);
        } else if i == 3 && j == 14 {
            assert(registry_entry(3).0[2] != registry_entry(14).0[2]);
        } else if i == 3 && j == 15 {
            assert(registry_entry(3).0.len() != registry_entry(15).0.len());
        } else if i == 3 && j == 16 {
            assert(registry_entry(3).0[2] != registry_entry(16).0[2]);
        } else if i == 3 && j == 17 {
            assert(registry_entry(3).0.len() != registry_entry(17).0.len());
        } else if i == 3 && j == 18 {
            assert(registry_entry(3).0.len() != registry_entry(18).0.len());
        } else if i == 3 && j == 19 {
            assert(registry_entry(3).0[3] != registry_entry(19).0[3]);
        } else if i == 4 && j == 5 {
            assert(registry_entry(4).0[2] != registry_entry(5).0[2]);
        } else if i == 4 && j == 6 {
            assert(registry_entry(4).0[3] != registry_entry(6).0[3]);
        } else if i == 4 && j == 7 {
            assert(registry_entry(4).0.len() != registry_entry(7).0.len());
        } else if i == 4 && j == 8 {
            assert(registry_entry(4).0[2] != registry_entry(8).0[2]);
        } else if i == 4 && j == 9 {
            assert(registry_entry(4).0[3] != registry_entry(9).0[3]);
        } else if i == 4 && j == 10 {
            assert(registry_entry(4).0.len() != registry_entry(10).0.len());
        } else if i == 4 && j == 11 {
            assert(registry_entry(4).0.len() != registry_entry(11).0.len());
        } else if i == 4 && j == 12 {
            assert(registry_entry(4).0.len() != registry_entry(12).0.len());
        } else if i == 4 && j == 13 {
            assert(registry_entry(4).0[3] != registry_entry(13).0[3]);
        } else if i == 4 && j == 14 {
            assert(registry_entry(4).0[3] != registry_entry(14).0[3]);
        } else if i == 4 && j == 15 {
            assert(registry_entry(4).0.len() != registry_entry(15).0.len());
        } else if i == 4 && j == 16 {
            assert(registry_entry(4).0[2] != registry_entry(16).0[2]);
        } else if i == 4 && j == 17 {
            assert(registry_entry(4).0.len() != registry_entry(17).0.len());
        } else if i == 4 && j == 18 {
            assert(registry_entry(4).0.len() != registry_entry(18).0.len());
        } else if i == 4 && j == 19 {
            assert(registry_entry(4).0[2] != registry_entry(19).0[2]);
        } else if i == 5 && j == 6 {
            assert(registry_entry(5).0[2] != registry_entry(6).0[2]);
        } else if i == 5 && j == 7 {
            assert(registry_entry(5).0.len() != registry_entry(7).0.len());
        } else if i == 5 && j == 8 {
            assert(registry_entry(5).0[3] != registry_entry(8).0[3]);
        } else if i == 5 && j == 9 {
            assert(registry_entry(5).0[2] != registry_entry(9).0[2]);
        } else if i == 5 && j == 10 {
            assert(registry_entry(5).0.len() != registry_entry(10).0.len());
        } else if i == 5 && j == 11 {
            assert(registry_entry(5).0.len() != registry_entry(11).0.len());
        } else if i == 5 && j == 12 {
            assert(registry_entry(5).0.len() != registry_entry(12).0.len());
        } else if i == 5 && j == 13 {
            assert(registry_entry(5).0[2] != registry_entry(13).0[2]);
        } else if i == 5 && j == 14 {
            assert(registry_entry(5).0[2] != registry_entry(14).0[2]);
        } else if i == 5 && j == 15 {
            assert(registry_entry(5).0.len() != registry_entry(15).0.len());
        } else if i == 5 && j == 16 {
            assert(registry_entry(5).0[3] != registry_entry(16).0[3]);
        } else if i == 5 && j == 17 {
            assert(registry_entry(5).0.len() != registry_entry(17).0.len());
        } else if i == 5 && j == 18 {
            assert(registry_entry(5).0.len() != registry_entry(18).0.len());
        } else if i == 5 && j == 19 {
            assert(registry_entry(5).0[2] != registry_entry(19).0[2]);
        } else if i == 6 && j == 7 {
            assert(registry_entry(6).0.len() != registry_entry(7).0.len());
        } else if i == 6 && j == 8 {
            assert(registry_entry(6).0[2] != registry_entry(8).0[2]);
        } else if i == 6 && j == 9 {
            assert(registry_entry(6).0[3] != registry_entry(9).0[3]);
        } else if i == 6 && j == 10 {
            assert(registry_entry(6).0.len() != registry_entry(10).0.len());
        } else if i == 6 && j == 11 {
            assert(registry_entry(6).0.len() != registry_entry(11).0.len());
        } else if i == 6 && j == 12 {
            assert(registry_entry(6).0.len() != registry_entry(12).0.len());
        } else if i == 6 && j == 13 {
            assert(registry_entry(6).0[3] != registry_entry(13).0[3]);
        } else if i == 6 && j == 14 {
            assert(registry_entry(6).0[3] != registry_entry(14).0[3]);
        } else if i == 6 && j == 15 {
            assert(registry_entry(6).0.len() != registry_entry(15).0.len());
        } else if i == 6 && j == 16 {
            assert(registry_entry(6).0[2] != registry_entry(16).0[2]);
        } else if i == 6 && j == 17 {
            assert(registry_entry(6).0.len() != registry_entry(17).0.len());
        } else if i == 6 && j == 18 {
            assert(registry_entry(6).0.len() != registry_entry(18).0.len());
        } else if i == 6 && j == 19 {
            assert(registry_entry(6).0[2] != registry_entry(19).0[2]);
        } else if i == 7 && j == 8 {
            assert(registry_entry(7).0.len() != registry_entry(8).0.len());
        } else if i == 7 && j == 9 {
            assert(registry_entry(7).0.len() != registry_entry(9).0.len());
        } else if i == 7 && j == 10 {
            assert(registry_entry(7).0[2] != registry_entry(10).0[2]);
        } else if i == 7 && j == 11 {
            assert(registry_entry(7).0[2] != registry_entry(11).0[2]);
        } else if i == 7 && j == 12 {
            assert(registry_entry(7).0[4] != registry_entry(12).0[4]);
        } else if i == 7 && j == 13 {
            assert(registry_entry(7).0.len() != registry_entry(13).0.len());
        } else if i == 7 && j == 14 {
            assert(registry_entry(7).0.len() != registry_entry(14).0.len());
        } else if i == 7 && j == 15 {
            assert(registry_entry(7).0[2] != registry_entry(15).0[2]);
        } else if i == 7 && j == 16 {
            assert(registry_entry(7).0.len() != registry_entry(16).0.len());
        } else if i == 7 && j == 17 {
            assert(registry_entry(7).0[4] != registry_entry(17).0[4]);
        } else if i == 7 && j == 18 {
            assert(registry_entry(7).0[3] != registry_entry(18).0[3]);
        } else if i == 7 && j == 19 {
            assert(registry_entry(7).0.len() != registry_entry(19).0.len());
        } else if i == 8 && j == 9 {
            assert(registry_entry(8).0[2] != registry_entry(9).0[2]);
        } else if i == 8 && j == 10 {
            assert(registry_entry(8).0.len() != registry_entry(10).0.len());
        } else if i == 8 && j == 11 {
            assert(registry_entry(8).0.len() != registry_entry(11).0.len());
        } else if i == 8 && j == 12 {
            assert(registry_entry(8).0.len() != registry_entry(12).0.len());
        } else if i == 8 && j == 13 {
            assert(registry_entry(8).0[2] != registry_entry(13).0[2]);
        } else if i == 8 && j == 14 {
            assert(registry_entry(8).0[2] != registry_entry(14).0[2]);
        } else if i == 8 && j == 15 {
            assert(registry_entry(8).0.len() != registry_entry(15).0.len());
        } else if i == 8 && j == 16 {
            assert(registry_entry(8).0[3] != registry_entry(16).0[3]);
        } else if i == 8 && j == 17 {
            assert(registry_entry(8).0.len() != registry_entry(17).0.len());
        } else if i == 8 && j == 18 {
            assert(registry_entry(8).0.len() != registry_entry(18).0.len());
        } else if i == 8 && j == 19 {
            assert(registry_entry(8).0[2] != registry_entry(19).0[2]);
        } else if i == 9 && j == 10 {
            assert(registry_entry(9).0.len() != registry_entry(10).0.len());
        } else if i == 9 && j == 11 {
            assert(registry_entry(9).0.len() != registry_entry(11).0.len());
        } else if i == 9 && j == 12 {
            assert(registry_entry(9).0.len() != registry_entry(12).0.len());
        } else if i == 9 && j == 13 {
            assert(registry_entry(9).0[3] != registry_entry(13).0[3]);
        } else if i == 9 && j == 14 {
            assert(registry_entry(9).0[3] != registry_entry(14).0[3]);
        } else if i == 9 && j == 15 {
            assert(registry_entry(9).0.len() != registry_entry(15).0.len());
        } else if i == 9 && j == 16 {
            assert(registry_entry(9).0[2] != registry_entry(16).0[2]);
        } else if i == 9 && j == 17 {
            assert(registry_entry(9).0.len() != registry_entry(17).0.len());
        } else if i == 9 && j == 18 {
            assert(registry_entry(9).0.len() != registry_entry(18).0.len());
        } else if i == 9 && j == 19 {
            assert(registry_entry(9).0[2] != registry_entry(19).0[2]);
        } else if i == 10 && j == 11 {
            assert(registry_entry(10).0[3] != registry_entry(11).0[3]);
        } else if i == 10 && j == 12 {
            assert(registry_entry(10).0[2] != registry_entry(12).0[2]);
        } else if i == 10 && j == 13 {
            assert(registry_entry(10).0.len() != registry_entry(13).0.len());
        } else if i == 10 && j == 14 {
            assert(registry_entry(10).0.len() != registry_entry(14).0.len());
        } else if i == 10 && j == 15 {
            assert(registry_entry(10).0[2] != registry_entry(15).0[2]);
        } else if i == 10 && j == 16 {
            assert(registry_entry(10).0.len() != registry_entry(16).0.len());
        } else if i == 10 && j == 17 {
            assert(registry_entry(10).0[2] != registry_entry(17).0[2]);
        } else if i == 10 && j == 18 {
            assert(registry_entry(10).0[2] != registry_entry(18).0[2]);
        } else if i == 10 && j == 19 {
            assert(registry_entry(10).0.len() != registry_entry(19).0.len());
        } else if i == 11 && j == 12 {
            assert(registry_entry(11).0[2] != registry_entry(12).0[2]);
        } else if i == 11 && j == 13 {
            assert(registry_entry(11).0.len() != registry_entry(13).0.len());
        } else if i == 11 && j == 14 {
            assert(registry_entry(11).0.len() != registry_entry(14).0.len());
        } else if i == 11 && j == 15 {
            assert(registry_entry(11).0[2] != registry_entry(15).0[2]);
        } else if i == 11 && j == 16 {
            assert(registry_entry(11).0.len() != registry_entry(16).0.len());
        } else if i == 11 && j == 17 {
            assert(registry_entry(11).0[2] != registry_entry(17).0[2]);
        } else if i == 11 && j == 18 {
            assert(registry_entry(11).0[2] != registry_entry(18).0[2]);
        } else if i == 11 && j == 19 {
            assert(registry_entry(11).0.len() != registry_entry(19).0.len());
        } else if i == 12 && j == 13 {
            assert(registry_entry(12).0.len() != registry_entry(13).0.len());
        } else if i == 12 && j == 14 {
            assert(registry_entry(12).0.len() != registry_entry(14).0.len());
        } else if i == 12 && j == 15 {
            assert(registry_entry(12).0[2] != registry_entry(15).0[2]);
        } else if i == 12 && j == 16 {
            assert(registry_entry(12).0.len() != registry_entry(16).0.len());
        } else if i == 12 && j == 17 {
            assert(registry_entry(12).0[4] != registry_entry(17).0[4]);
        } else if i == 12 && j == 18 {
            assert(registry_entry(12).0[3] != registry_entry(18).0[3]);
        } else if i == 12 && j == 19 {
            assert(registry_entry(12).0.len() != registry_entry(19).0.len());
        } else if i == 13 && j == 14 {
            assert(registry_entry(13).0[3] != registry_entry(14).0[3]);
        } else if i == 13 && j == 15 {
            assert(registry_entry(13).0.len() != registry_entry(15).0.len());
        } else if i == 13 && j == 16 {
            assert(registry_entry(13).0[2] != registry_entry(16).0[2]);
        } else if i == 13 && j == 17 {
            assert(registry_entry(13).0.len() != registry_entry(17).0.len());
        } else if i == 13 && j == 18 {
            assert(registry_entry(13).0.len() != registry_entry(18).0.len());
        } else if i == 13 && j == 19 {
            assert(registry_entry(13).0[2] != registry_entry(19).0[2]);
        } else if i == 14 && j == 15 {
            assert(registry_entry(14).0.len() != registry_entry(15).0.len());
        } else if i == 14 && j == 16 {
            assert(registry_entry(14).0[2] != registry_entry(16).0[2]);
        } else if i == 14 && j == 17 {
            assert(registry_entry(14).0.len() != registry_entry(17).0.len());
        } else if i == 14 && j == 18 {
            assert(registry_entry(14).0.len() != registry_entry(18).0.len());
        } else if i == 14 && j == 19 {
            assert(registry_entry(14).0[2] != registry_entry(19).0[2]);
        } else if i == 15 && j == 16 {
            assert(registry_entry(15).0.len() != registry_entry(16).0.len());
        } else if i == 15 && j == 17 {
            assert(registry_entry(15).0[2] != registry_entry(17).0[2]);
        } else if i == 15 && j == 18 {
            assert(registry_entry(15).0[2] != registry_entry(18).0[2]);
        } else if i == 15 && j == 19 {
            assert(registry_entry(15).0.len() != registry_entry(19).0.len());
        } else if i == 16 && j == 17 {
            assert(registry_entry(16).0.len() != registry_entry(17).0.len());
        } else if i == 16 && j == 18 {
            assert(registry_entry(16).0.len() != registry_entry(18).0.len());
        } else if i == 16 && j == 19 {
            assert(registry_entry(16).0[2] != registry_entry(19).0[2]);
        } else if i == 17 && j == 18 {
            assert(registry_entry(17).0[3] != registry_entry(18).0[3]);
        } else if i == 17 && j == 19 {
            assert(registry_entry(17).0.len() != registry_entry(19).0.len());
        } else if i == 18 && j == 19 {
            assert(registry_entry(18).0.len() != registry_entry(19).0.len());
        }
    }
}

proof fn lemma_first_with_id_from(id: Seq<char>, k: int, i: int)
    requires
        0 <= k <= i < REGISTRY_LEN,
        registry_entry(i).0 == id,
        forall|j: int| k <= j < i ==> #[trigger] registry_entry(j).0 != id,
    ensures
        first_with_id(id, k) == Some(i),
    decreases i - k,
{
    if k < i {
        lemma_first_with_id_from(id, k + 1, i);
    }
}

/// Looking a registered technique's identifier up finds that technique.
pub proof fn lemma_first_with_id_registered(i: int)
    requires
        0 <= i < REGISTRY_LEN,
    ensures
        first_with_id(registry_entry(i).0, 0) == Some(i),
{
    lemma_registry_ids_distinct();
    assert forall|j: int| 0 <= j < i implies #[trigger] registry_entry(j).0 != registry_entry(i).0 by {
        assert(registry_entry(j).0 != registry_entry(i).0);
    }
    lemma_first_with_id_from(registry_entry(i).0, 0, i);
}

/// The tactic that a registered technique's identifier prefix maps to, if
/// any, is the tactic the registry lists for it: the two never disagree.
pub proof fn lemma_prefix_tactic_agrees(i: int)
    requires
        0 <= i < REGISTRY_LEN,
    ensures
        Tactic::of_technique(registry_entry(i).0) matches Some(t) ==> t == registry_entry(i).3,
{
    reveal_strlit("T1003.001");
    reveal_strlit("T1021.002");
    reveal_strlit("T1046");
    reveal_strlit("T1047");
    reveal_strlit("T1048");
    reveal_strlit("T1048.003");
    reveal_strlit("T1053.005");
    reveal_strlit("T1059.001");
    reveal_strlit("T1059.004");
    reveal_strlit("T1068");
    reveal_strlit("T1071.001");
    reveal_strlit("T1110.001");
    reveal_strlit("T1134.001");
    reveal_strlit("T1190");
    reveal_strlit("T1486");
    reveal_strlit("T1490");
    reveal_strlit("T1505.003");
    reveal_strlit("T1547.001");
    reveal_strlit("T1550.002");
    reveal_strlit("T1566.001");
    reveal_strlit("T1566");
    reveal_strlit("T1059");
    reveal_strlit("T1547");
    reveal_strlit("T1053");
    reveal_strlit("T1134");
    reveal_strlit("T1003");
    reveal_strlit("T1110");
    reveal_strlit("T1021");
    reveal_strlit("T1550");
    reveal_strlit("T1041");
    reveal_strlit("T1071");
    reveal_strlit("T1095");
    reveal_strlit("T1069");
    if i == 0 {
        let id = registry_entry(0).0;
        assert(id == "T1566.001"@);
        assert(id.subrange(0, 5) =~= "T1566"@);
    }
    if i == 1 {
        let id = registry_entry(1).0;
        assert(id == "T1059.001"@);
        assert(id.subrange(0, 5)[2] != "T1566"@[2]);
        assert(id.subrange(0, 5) =~= "T1059"@);
    }
    if i == 2 {
        let id = registry_entry(2).0;
        assert(id == "T1059.004"@);
        assert(id.subrange(0, 5)[2] != "T1566"@[2]);
        assert(id.subrange(0, 5) =~= "T1059"@);
    }
    if i == 3 {
        let id = registry_entry(3).0;
        assert(id == "T1110.001"@);
        assert(id.subrange(0, 5)[2] != "T1566"@[2]);
        assert(id.subrange(0, 5)[2] != "T1059"@[2]);
        assert(id.subrange(0, 5)[2] != "T1547"@[2]);
        assert(id.subrange(0, 5)[2] != "T1053"@[2]);
        assert(id.subrange(0, 5)[2] != "T1068"@[2]);
        assert(id.subrange(0, 5)[3] != "T1134"@[3]);
        assert(id.subrange(0, 5)[2] != "T1003"@[2]);
        assert(id.subrange(0, 5) =~= "T1110"@);
    }
    if i == 4 {
        let id = registry_entry(4).0;
        assert(id == "T1003.001"@);
        assert(id.subrange(0, 5)[2] != "T1566"@[2]);
        assert(id.subrange(0, 5)[3] != "T1059"@[3]);
        assert(id.subrange(0, 5)[2] != "T1547"@[2]);
        assert(id.subrange(0, 5)[3] != "T1053"@[3]);
        assert(id.subrange(0, 5)[3] != "T1068"@[3]);
        assert(id.subrange(0, 5)[2] != "T1134"@[2]);
        assert(id.subrange(0, 5) =~= "T1003"@);
    }
    if i == 5 {
        let id = registry_entry(5).0;
        assert(id == "T1550.002"@);
        assert(id.subrange(0, 5)[3] != "T1566"@[3]);
        assert(id.subrange(0, 5)[2] != "T1059"@[2]);
        assert(id.subrange(0, 5)[3] != "T1547"@[3]);
        assert(id.subrange(0, 5)[2] != "T1053"@[2]);
        assert(id.subrange(0, 5)[2] != "T1068"@[2]);
        assert(id.subrange(0, 5)[2] != "T1134"@[2]);
        assert(id.subrange(0, 5)[2] != "T1003"@[2]);
        assert(id.subrange(0, 5)[2] != "T1110"@[2]);
        assert(id.subrange(0, 5)[2] != "T1021"@[2]);
        assert(id.subrange(0, 5) =~= "T1550"@);
    }
    if i == 6 {
        let id = registry_entry(6).0;
        assert(id == "T1021.002"@);
        assert(id.subrange(0, 5)[2] != "T1566"@[2]);
        assert(id.subrange(0, 5)[3] != "T1059"@[3]);
        assert(id.subrange(0, 5)[2] != "T1547"@[2]);
        assert(id.subrange(0, 5)[3] != "T1053"@[3]);
        assert(id.subrange(0, 5)[3] != "T1068"@[3]);
        assert(id.subrange(0, 5)[2] != "T1134"@[2]);
        assert(id.subrange(0, 5)[3] != "T1003"@[3]);
        assert(id.subrange(0, 5)[2] != "T1110"@[2]);
        assert(id.subrange(0, 5) =~= "T1021"@);
    }
    if i == 7 {
        let id = registry_entry(7).0;
        assert(id == "T1047"@);
        assert(id.subrange(0, 5)[2] != "T1566"@[2]);
        assert(id.subrange(0, 5)[3] != "T1059"@[3]);
        assert(id.subrange(0, 5)[2] != "T1547"@[2]);
        assert(id.subrange(0, 5)[3] != "T1053"@[3]);
        assert(id.subrange(0, 5)[3] != "T1068"@[3]);
        assert(id.subrange(0, 5)[2] != "T1134"@[2]);
        assert(id.subrange(0, 5)[3] != "T1003"@[3]);
        assert(id.subrange(0, 5)[2] != "T1110"@[2]);
        assert(id.subrange(0, 5)[3] != "T1021"@[3]);
        assert(id.subrange(0, 5)[2] != "T1550"@[2]);
        assert(id.subrange(0, 5)[4] != "T1048"@[4]);
        assert(id.subrange(0, 5)[4] != "T1041"@[4]);
        assert(id.subrange(0, 5)[2] != "T1486"@[2]);
        assert(id.subrange(0, 5)[2] != "T1490"@[2]);
        assert(id.subrange(0, 5)[3] != "T1071"@[3]);
        assert(id.subrange(0, 5)[3] != "T1095"@[3]);
        assert(id.subrange(0, 5)[4] != "T1046"@[4]);
        assert(id.subrange(0, 5)[3] != "T1069"@[3]);
    }
    if i == 8 {
        let id = registry_entry(8).0;
        assert(id == "T1547.001"@);
        assert(id.subrange(0, 5)[3] != "T1566"@[3]);
        assert(id.subrange(0, 5)[2] != "T1059"@[2]);
        assert(id.subrange(0, 5) =~= "T1547"@);
    }
    if i == 9 {
        let id = registry_entry(9).0;
        assert(id == "T1053.005"@);
        assert(id.subrange(0, 5)[2] != "T1566"@[2]);
        assert(id.subrange(0, 5)[4] != "T1059"@[4]);
        assert(id.subrange(0, 5)[2] != "T1547"@[2]);
        assert(id.subrange(0, 5) =~= "T1053"@);
    }
    if i == 10 {
        let id = registry_entry(10).0;
        assert(id == "T1486"@);
        assert(id.subrange(0, 5)[2] != "T1566"@[2]);
        assert(id.subrange(0, 5)[2] != "T1059"@[2]);
        assert(id.subrange(0, 5)[2] != "T1547"@[2]);
        assert(id.subrange(0, 5)[2] != "T1053"@[2]);
        assert(id.subrange(0, 5)[2] != "T1068"@[2]);
        assert(id.subrange(0, 5)[2] != "T1134"@[2]);
        assert(id.subrange(0, 5)[2] != "T1003"@[2]);
        assert(id.subrange(0, 5)[2] != "T1110"@[2]);
        assert(id.subrange(0, 5)[2] != "T1021"@[2]);
        assert(id.subrange(0, 5)[2] != "T1550"@[2]);
        assert(id.subrange(0, 5)[2] != "T1048"@[2]);
        assert(id.subrange(0, 5)[2] != "T1041"@[2]);
        assert(id.subrange(0, 5) =~= "T1486"@);
    }
    if i == 11 {
        let id = registry_entry(11).0;
        assert(id == "T1490"@);
        assert(id.subrange(0, 5)[2] != "T1566"@[2]);
        assert(id.subrange(0, 5)[2] != "T1059"@[2]);
        assert(id.subrange(0, 5)[2] != "T1547"@[2]);
        assert(id.subrange(0, 5)[2] != "T1053"@[2]);
        assert(id.subrange(0, 5)[2] != "T1068"@[2]);
        assert(id.subrange(0, 5)[2] != "T1134"@[2]);
        assert(id.subrange(0, 5)[2] != "T1003"@[2]);
        assert(id.subrange(0, 5)[2] != "T1110"@[2]);
        assert(id.subrange(0, 5)[2] != "T1021"@[2]);
        assert(id.subrange(0, 5)[2] != "T1550"@[2]);
        assert(id.subrange(0, 5)[2] != "T1048"@[2]);
        assert(id.subrange(0, 5)[2] != "T1041"@[2]);
        assert(id.subrange(0, 5)[3] != "T1486"@[3]);
        assert(id.subrange(0, 5) =~= "T1490"@);
    }
    if i == 12 {
        let id = registry_entry(12).0;
        assert(id == "T1048"@);
        assert(id.subrange(0, 5)[2] != "T1566"@[2]);
        assert(id.subrange(0, 5)[3] != "T1059"@[3]);
        assert(id.subrange(0, 5)[2] != "T1547"@[2]);
        assert(id.subrange(0, 5)[3] != "T1053"@[3]);
        assert(id.subrange(0, 5)[3] != "T1068"@[3]);
        assert(id.subrange(0, 5)[2] != "T1134"@[2]);
        assert(id.subrange(0, 5)[3] != "T1003"@[3]);
        assert(id.subrange(0, 5)[2] != "T1110"@[2]);
        assert(id.subrange(0, 5)[3] != "T1021"@[3]);
        assert(id.subrange(0, 5)[2] != "T1550"@[2]);
        assert(id.subrange(0, 5) =~= "T1048"@);
    }
    if i == 13 {
        let id = registry_entry(13).0;
        assert(id == "T1048.003"@);
        assert(id.subrange(0, 5)[2] != "T1566"@[2]);
        assert(id.subrange(0, 5)[3] != "T1059"@[3]);
        assert(id.subrange(0, 5)[2] != "T1547"@[2]);
        assert(id.subrange(0, 5)[3] != "T1053"@[3]);
        assert(id.subrange(0, 5)[3] != "T1068"@[3]);
        assert(id.subrange(0, 5)[2] != "T1134"@[2]);
        assert(id.subrange(0, 5)[3] != "T1003"@[3]);
        assert(id.subrange(0, 5)[2] != "T1110"@[2]);
        assert(id.subrange(0, 5)[3] != "T1021"@[3]);
        assert(id.subrange(0, 5)[2] != "T1550"@[2]);
        assert(id.subrange(0, 5) =~= "T1048"@);
    }
    if i == 14 {
        let id = registry_entry(14).0;
        assert(id == "T1071.001"@);
        assert(id.subrange(0, 5)[2] != "T1566"@[2]);
        assert(id.subrange(0, 5)[3] != "T1059"@[3]);
        assert(id.subrange(0, 5)[2] != "T1547"@[2]);
        assert(id.subrange(0, 5)[3] != "T1053"@[3]);
        assert(id.subrange(0, 5)[3] != "T1068"@[3]);
        assert(id.subrange(0, 5)[2] != "T1134"@[2]);
        assert(id.subrange(0, 5)[3] != "T1003"@[3]);
        assert(id.subrange(0, 5)[2] != "T1110"@[2]);
        assert(id.subrange(0, 5)[3] != "T1021"@[3]);
        assert(id.subrange(0, 5)[2] != "T1550"@[2]);
        assert(id.subrange(0, 5)[3] != "T1048"@[3]);
        assert(id.subrange(0, 5)[3] != "T1041"@[3]);
        assert(id.subrange(0, 5)[2] != "T1486"@[2]);
        assert(id.subrange(0, 5)[2] != "T1490"@[2]);
        assert(id.subrange(0, 5) =~= "T1071"@);
    }
    if i == 15 {
        let id = registry_entry(15).0;
        assert(id == "T1190"@);
        assert(id.subrange(0, 5)[2] != "T1566"@[2]);
        assert(id.subrange(0, 5)[2] != "T1059"@[2]);
        assert(id.subrange(0, 5)[2] != "T1547"@[2]);
        assert(id.subrange(0, 5)[2] != "T1053"@[2]);
        assert(id.subrange(0, 5)[2] != "T1068"@[2]);
        assert(id.subrange(0, 5)[3] != "T1134"@[3]);
        assert(id.subrange(0, 5)[2] != "T1003"@[2]);
        assert(id.subrange(0, 5)[3] != "T1110"@[3]);
        assert(id.subrange(0, 5)[2] != "T1021"@[2]);
        assert(id.subrange(0, 5)[2] != "T1550"@[2]);
        assert(id.subrange(0, 5)[2] != "T1048"@[2]);
        assert(id.subrange(0, 5)[2] != "T1041"@[2]);
        assert(id.subrange(0, 5)[2] != "T1486"@[2]);
        assert(id.subrange(0, 5)[2] != "T1490"@[2]);
        assert(id.subrange(0, 5)[2] != "T1071"@[2]);
        assert(id.subrange(0, 5)[2] != "T1095"@[2]);
        assert(id.subrange(0, 5)[2] != "T1046"@[2]);
        assert(id.subrange(0, 5)[2] != "T1069"@[2]);
    }
    if i == 16 {
        let id = registry_entry(16).0;
        assert(id == "T1505.003"@);
        assert(id.subrange(0, 5)[3] != "T1566"@[3]);
        assert(id.subrange(0, 5)[2] != "T1059"@[2]);
        assert(id.subrange(0, 5)[3] != "T1547"@[3]);
        assert(id.subrange(0, 5)[2] != "T1053"@[2]);
        assert(id.subrange(0, 5)[2] != "T1068"@[2]);
        assert(id.subrange(0, 5)[2] != "T1134"@[2]);
        assert(id.subrange(0, 5)[2] != "T1003"@[2]);
        assert(id.subrange(0, 5)[2] != "T1110"@[2]);
        assert(id.subrange(0, 5)[2] != "T1021"@[2]);
        assert(id.subrange(0, 5)[3] != "T1550"@[3]);
        assert(id.subrange(0, 5)[2] != "T1048"@[2]);
        assert(id.subrange(0, 5)[2] != "T1041"@[2]);
        assert(id.subrange(0, 5)[2] != "T1486"@[2]);
        assert(id.subrange(0, 5)[2] != "T1490"@[2]);
        assert(id.subrange(0, 5)[2] != "T1071"@[2]);
        assert(id.subrange(0, 5)[2] != "T1095"@[2]);
        assert(id.subrange(0, 5)[2] != "T1046"@[2]);
        assert(id.subrange(0, 5)[2] != "T1069"@[2]);
    }
    if i == 17 {
        let id = registry_entry(17).0;
        assert(id == "T1046"@);
        assert(id.subrange(0, 5)[2] != "T1566"@[2]);
        assert(id.subrange(0, 5)[3] != "T1059"@[3]);
        assert(id.subrange(0, 5)[2] != "T1547"@[2]);
        assert(id.subrange(0, 5)[3] != "T1053"@[3]);
        assert(id.subrange(0, 5)[3] != "T1068"@[3]);
        assert(id.subrange(0, 5)[2] != "T1134"@[2]);
        assert(id.subrange(0, 5)[3] != "T1003"@[3]);
        assert(id.subrange(0, 5)[2] != "T1110"@[2]);
        assert(id.subrange(0, 5)[3] != "T1021"@[3]);
        assert(id.subrange(0, 5)[2] != "T1550"@[2]);
        assert(id.subrange(0, 5)[4] != "T1048"@[4]);
        assert(id.subrange(0, 5)[4] != "T1041"@[4]);
        assert(id.subrange(0, 5)[2] != "T1486"@[2]);
        assert(id.subrange(0, 5)[2] != "T1490"@[2]);
        assert(id.subrange(0, 5)[3] != "T1071"@[3]);
        assert(id.subrange(0, 5)[3] != "T1095"@[3]);
        assert(id.subrange(0, 5) =~= "T1046"@);
    }
    if i == 18 {
        let id = registry_entry(18).0;
        assert(id == "T1068"@);
        assert(id.subrange(0, 5)[2] != "T1566"@[2]);
        assert(id.subrange(0, 5)[3] != "T1059"@[3]);
        assert(id.subrange(0, 5)[2] != "T1547"@[2]);
        assert(id.subrange(0, 5)[3] != "T1053"@[3]);
        assert(id.subrange(0, 5) =~= "T1068"@);
    }
    if i == 19 {
        let id = registry_entry(19).0;
        assert(id == "T1134.001"@);
        assert(id.subrange(0, 5)[2] != "T1566"@[2]);
        assert(id.subrange(0, 5)[2] != "T1059"@[2]);
        assert(id.subrange(0, 5)[2] != "T1547"@[2]);
        assert(id.subrange(0, 5)[2] != "T1053"@[2]);
        assert(id.subrange(0, 5)[2] != "T1068"@[2]);
        assert(id.subrange(0, 5) =~= "T1134"@);
    }
}

fn technique_at(i: usize) -> (r: Technique)
    requires
        i < REGISTRY_LEN,
    ensures
        r.entry() == registry_entry(i as int),
{
    if i == 0 {
        Technique::new(
                "T1566.001",
                "Spearphishing Attachment",
                "Adversaries send spearphishing emails with malicious attachments",
                Tactic::InitialAccess,
                "Monitor for suspicious email attachments, especially Office documents with macros",
            )
    } else if i == 1 {
        Technique::new(
                "T1059.001",
                "PowerShell",
                "Adversaries use PowerShell commands and scripts for execution",
                Tactic::Execution,
                "Monitor PowerShell process creation with suspicious parameters like -enc, -nop, -w hidden",
            )
    } else if i == 2 {
        Technique::new(
                "T1059.004",
                "Unix Shell",
                "Adversaries use Unix shell commands for execution",
                Tactic::Execution,
                "Monitor for shell processes spawned by web server processes",
            )
    } else if i == 3 {
        Technique::new(
                "T1110.001",
                "Password Guessing",
                "Adversaries try commonly used passwords against many accounts",
                Tactic::CredentialAccess,
                "Monitor for multiple failed login attempts from the same source IP",
            )
    } else if i == 4 {
        Technique::new(
                "T1003.001",
                "LSASS Memory",
                "Adversaries dump credentials from LSASS memory",
                Tactic::CredentialAccess,
                "Monitor for processes accessing lsass.exe memory",
            )
    } else if i == 5 {
        Technique::new(
                "T1550.002",
                "Pass the Hash",
                "Adversaries use stolen NTLM hashes to authenticate without the actual password",
                Tactic::LateralMovement,
                "Look for NTLM authentication without interactive login from unexpected sources",
            )
    } else if i == 6 {
        Technique::new(
                "T1021.002",
                "SMB/Windows Admin Shares",
                "Adversaries use Valid Accounts to interact with a remote network share using Server Message Block (SMB)",
                Tactic::LateralMovement,
                "Monitor for unusual SMB connections to administrative shares (ADMIN$, C$)",
            )
    } else if i == 7 {
        Technique::new(
                "T1047",
                "Windows Management Instrumentation",
                "Adversaries use WMI to execute malicious code on remote systems",
                Tactic::Execution,
                "Monitor for WMI process creation involving cmd.exe or PowerShell on remote hosts",
            )
    } else if i == 8 {
        Technique::new(
                "T1547.001",
                "Registry Run Keys",
                "Adversaries achieve persistence by adding programs to registry run keys",
                Tactic::Persistence,
                "Monitor for modifications to Run and RunOnce registry keys",
            )
    } else if i == 9 {
        Technique::new(
                "T1053.005",
                "Scheduled Task",
                "Adversaries use the Windows Task Scheduler to execute programs at boot or on a schedule",
                Tactic::Persistence,
                "Monitor for new scheduled task creation, especially by non-admin processes",
            )
    } else if i == 10 {
        Technique::new(
                "T1486",
                "Data Encrypted for Impact",
                "Adversaries encrypt data on target systems to interrupt availability",
                Tactic::Impact,
                "Monitor for rapid bulk file modification/rename operations",
            )
    } else if i == 11 {
        Technique::new(
                "T1490",
                "Inhibit System Recovery",
                "Adversaries delete shadow copies and backups to prevent recovery",
                Tactic::Impact,
                "Monitor for vssadmin.exe or wmic calls to delete shadow copies",
            )
    } else if i == 12 {
        Technique::new(
                "T1048",
                "Exfiltration Over Alternative Protocol",
                "Adversaries exfiltrate data over a different protocol (DNS, ICMP)",
                Tactic::Exfiltration,
                "Monitor for unusual outbound traffic volumes or protocols (DNS TXT records, ICMP)",
            )
    } else if i == 13 {
        Technique::new(
                "T1048.003",
                "Exfiltration Over Unencrypted/Obfuscated Non-C2 Protocol",
                "Adversaries use DNS tunneling for exfiltration",
                Tactic::Exfiltration,
                "Monitor for abnormally large DNS TXT record queries",
            )
    } else if i == 14 {
        Technique::new(
                "T1071.001",
                "Web Protocols",
                "Adversaries use HTTP/HTTPS for C2 communications",
                Tactic::CommandAndControl,
                "Monitor for periodic outbound HTTPS connections to unknown external IPs",
            )
    } else if i == 15 {
        Technique::new(
                "T1190",
                "Exploit Public-Facing Application",
                "Adversaries exploit weaknesses in web applications",
                Tactic::InitialAccess,
                "Monitor web application logs for SQL injection, XSS, or directory traversal patterns",
            )
    } else if i == 16 {
        Technique::new(
                "T1505.003",
                "Web Shell",
                "Adversaries install web shells to maintain persistent access to web servers",
                Tactic::Persistence,
                "Monitor web server file systems for newly created executable scripts",
            )
    } else if i == 17 {
        Technique::new(
                "T1046",
                "Network Service Scanning",
                "Adversaries perform port scanning of internal hosts",
                Tactic::Discovery,
                "Monitor for sequential port scan activity from internal hosts",
            )
    } else if i == 18 {
        Technique::new(
                "T1068",
                "Exploitation for Privilege Escalation",
                "Adversaries exploit vulnerabilities to gain elevated privileges",
                Tactic::PrivilegeEscalation,
                "Monitor for processes gaining higher privileges than their parents",
            )
    } else {
        Technique::new(
                "T1134.001",
                "Token Impersonation/Theft",
                "Adversaries impersonate existing process tokens to escalate privileges",
                Tactic::PrivilegeEscalation,
                "Monitor for SeImpersonatePrivilege usage by non-service processes",
            )
    }
}

/// Returns the standard technique registry used by the simulator.
pub fn technique_registry() -> (r: Vec<Technique>)
    ensures
        r@.len() == REGISTRY_LEN,
        forall|i: int| 0 <= i < REGISTRY_LEN ==> (#[trigger] r@[i]).entry() == registry_entry(i),
{
    let mut r: Vec<Technique> = Vec::new();
    let mut i: usize = 0;
    while i < REGISTRY_LEN
        invariant
            i <= REGISTRY_LEN,
            r@.len() == i,
            forall|k: int| 0 <= k < i ==> (#[trigger] r@[k]).entry() == registry_entry(k),
        decreases REGISTRY_LEN - i,
    {
        r.push(technique_at(i));
        i = i + 1;
    }
    r
}

/// Look up a technique by its identifier: the first registry entry whose
/// identifier equals `id`.
pub fn find_technique(id: &str) -> (r: Option<Technique>)
    ensures
        match first_with_id(id@, 0) {
            Some(i) => r matches Some(t) && t.entry() == registry_entry(i),
            None => r is None,
        },
{
    let mut registry = technique_registry();
    let mut i: usize = 0;
    while i < registry.len()
        invariant
            registry@.len() == REGISTRY_LEN,
            forall|k: int| 0 <= k < REGISTRY_LEN ==> (#[trigger] registry@[k]).entry() == registry_entry(k),
            i <= REGISTRY_LEN,
            first_with_id(id@, 0) == first_with_id(id@, i as int),
        decreases registry.len() - i,
    {
        if str_eq(registry[i].id.as_str(), id) {
            return Some(registry.remove(i));
        }
        i = i + 1;
    }
    None
}

} // verus!
