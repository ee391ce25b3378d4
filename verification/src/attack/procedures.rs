//! Attack procedures: concrete sequences of steps that implement a
//! technique.
use vstd::prelude::*;

use crate::ordered::views;
use crate::text::owned;

verus! {

/// The character sequences of a list of texts.
pub open spec fn str_views(v: Seq<&str>) -> Seq<Seq<char>> {
    v.map_values(|s: &str| s@)
}

/// An attack procedure: a concrete sequence of steps that implements a
/// technique.
#[derive(Debug, Clone)]
pub struct AttackProcedure {
    pub id: String,
    pub name: String,
    pub technique_id: String,
    pub steps: Vec<String>,
    pub tools: Vec<String>,
}

fn owned_all(v: &Vec<&str>) -> (r: Vec<String>)
    ensures
        views(r@) == str_views(v@),
{
    let mut r: Vec<String> = Vec::new();
    let mut i: usize = 0;
    while i < v.len()
        invariant
            i <= v@.len(),
            r@.len() == i,
            forall|k: int| 0 <= k < i ==> (#[trigger] r@[k])@ == v@[k]@,
        decreases v.len() - i,
    {
        r.push(owned(v[i]));
        i = i + 1;
    }
    assert(views(r@) =~= str_views(v@));
    r
}

impl AttackProcedure {
    /// A procedure with no steps and no tools yet.
    pub fn new(id: &str, name: &str, technique_id: &str) -> (r: Self)
        ensures
            r.id@ == id@,
            r.name@ == name@,
            r.technique_id@ == technique_id@,
            r.steps@.len() == 0,
            r.tools@.len() == 0,
    {
        AttackProcedure {
            id: owned(id),
            name: owned(name),
            technique_id: owned(technique_id),
            steps: Vec::new(),
            tools: Vec::new(),
        }
    }

    /// The procedure with its steps replaced by `steps`.
    pub fn with_steps(self, steps: Vec<&str>) -> (r: Self)
        ensures
            r.id == self.id,
            r.name == self.name,
            r.technique_id == self.technique_id,
            views(r.steps@) == str_views(steps@),
            r.tools == self.tools,
    {
        let mut s = self;
        s.steps = owned_all(&steps);
        s
    }

    /// The procedure with its tools replaced by `tools`.
    pub fn with_tools(self, tools: Vec<&str>) -> (r: Self)
        ensures
            r.id == self.id,
            r.name == self.name,
            r.technique_id == self.technique_id,
            r.steps == self.steps,
            views(r.tools@) == str_views(tools@),
    {
        let mut s = self;
        s.tools = owned_all(&tools);
        s
    }
}

pub fn brute_force_procedure() -> (r: AttackProcedure)
    ensures
        r.id@ == "proc-bf-01"@,
        r.name@ == "SSH Brute Force"@,
        r.technique_id@ == "T1110.001"@,
        views(r.steps@) == seq![
                "Gather target host and service information"@,
                "Select wordlist for password guessing"@,
                "Launch automated login attempts against SSH service"@,
                "Monitor for successful authentication"@,
                "Establish session upon success"@,
            ],
        views(r.tools@) == seq!["Hydra"@, "Medusa"@, "Ncrack"@],
{
    let steps: Vec<&str> = vec![
            "Gather target host and service information",
            "Select wordlist for password guessing",
            "Launch automated login attempts against SSH service",
            "Monitor for successful authentication",
            "Establish session upon success",
        ];
    let tools: Vec<&str> = vec!["Hydra", "Medusa", "Ncrack"];
    let r = AttackProcedure::new("proc-bf-01", "SSH Brute Force", "T1110.001").with_steps(steps).with_tools(tools);
    assert(str_views(steps@) == seq![
                "Gather target host and service information"@,
                "Select wordlist for password guessing"@,
                "Launch automated login attempts against SSH service"@,
                "Monitor for successful authentication"@,
                "Establish session upon success"@,
            ]);
    assert(str_views(tools@) == seq!["Hydra"@, "Medusa"@, "Ncrack"@]);
    r
}

pub fn phishing_procedure() -> (r: AttackProcedure)
    ensures
        r.id@ == "proc-ph-01"@,
        r.name@ == "Spearphishing Email"@,
        r.technique_id@ == "T1566.001"@,
        views(r.steps@) == seq![
                "Research target organization and individuals"@,
                "Craft convincing email lure mimicking trusted sender"@,
                "Attach malicious document with macro payload"@,
                "Send targeted email to selected recipients"@,
                "Harvest credentials from phishing page or execute macro"@,
            ],
        views(r.tools@) == seq!["GoPhish"@, "SET"@, "Custom emailer"@],
{
    let steps: Vec<&str> = vec![
            "Research target organization and individuals",
            "Craft convincing email lure mimicking trusted sender",
            "Attach malicious document with macro payload",
            "Send targeted email to selected recipients",
            "Harvest credentials from phishing page or execute macro",
        ];
    let tools: Vec<&str> = vec!["GoPhish", "SET", "Custom emailer"];
    let r = AttackProcedure::new("proc-ph-01", "Spearphishing Email", "T1566.001").with_steps(steps).with_tools(tools);
    assert(str_views(steps@) == seq![
                "Research target organization and individuals"@,
                "Craft convincing email lure mimicking trusted sender"@,
                "Attach malicious document with macro payload"@,
                "Send targeted email to selected recipients"@,
                "Harvest credentials from phishing page or execute macro"@,
            ]);
    assert(str_views(tools@) == seq!["GoPhish"@, "SET"@, "Custom emailer"@]);
    r
}

pub fn credential_dump_procedure() -> (r: AttackProcedure)
    ensures
        r.id@ == "proc-cd-01"@,
        r.name@ == "LSASS Credential Dump"@,
        r.technique_id@ == "T1003.001"@,
        views(r.steps@) == seq![
                "Establish foothold with initial access"@,
                "Elevate privileges to SYSTEM"@,
                "Access LSASS process memory using tool or API"@,
                "Extract NTLM hashes and clear-text credentials"@,
                "Use credentials for lateral movement"@,
            ],
        views(r.tools@) == seq!["Mimikatz"@, "Procdump"@, "Task Manager"@],
{
    let steps: Vec<&str> = vec![
            "Establish foothold with initial access",
            "Elevate privileges to SYSTEM",
            "Access LSASS process memory using tool or API",
            "Extract NTLM hashes and clear-text credentials",
            "Use credentials for lateral movement",
        ];
    let tools: Vec<&str> = vec!["Mimikatz", "Procdump", "Task Manager"];
    let r = AttackProcedure::new("proc-cd-01", "LSASS Credential Dump", "T1003.001").with_steps(steps).with_tools(tools);
    assert(str_views(steps@) == seq![
                "Establish foothold with initial access"@,
                "Elevate privileges to SYSTEM"@,
                "Access LSASS process memory using tool or API"@,
                "Extract NTLM hashes and clear-text credentials"@,
                "Use credentials for lateral movement"@,
            ]);
    assert(str_views(tools@) == seq!["Mimikatz"@, "Procdump"@, "Task Manager"@]);
    r
}

pub fn lateral_movement_procedure() -> (r: AttackProcedure)
    ensures
        r.id@ == "proc-lm-01"@,
        r.name@ == "SMB Lateral Movement"@,
        r.technique_id@ == "T1021.002"@,
        views(r.steps@) == seq![
                "Obtain valid credentials or hashes"@,
                "Scan internal network for SMB-accessible hosts"@,
                "Mount admin shares using credentials"@,
                "Copy tools to remote host via share"@,
                "Execute remote process using WMI or PSExec"@,
            ],
        views(r.tools@) == seq!["PSExec"@, "WMIExec"@, "CrackMapExec"@, "Impacket"@],
{
    let steps: Vec<&str> = vec![
            "Obtain valid credentials or hashes",
            "Scan internal network for SMB-accessible hosts",
            "Mount admin shares using credentials",
            "Copy tools to remote host via share",
            "Execute remote process using WMI or PSExec",
        ];
    let tools: Vec<&str> = vec!["PSExec", "WMIExec", "CrackMapExec", "Impacket"];
    let r = AttackProcedure::new("proc-lm-01", "SMB Lateral Movement", "T1021.002").with_steps(steps).with_tools(tools);
    assert(str_views(steps@) == seq![
                "Obtain valid credentials or hashes"@,
                "Scan internal network for SMB-accessible hosts"@,
                "Mount admin shares using credentials"@,
                "Copy tools to remote host via share"@,
                "Execute remote process using WMI or PSExec"@,
            ]);
    assert(str_views(tools@) == seq!["PSExec"@, "WMIExec"@, "CrackMapExec"@, "Impacket"@]);
    r
}

pub fn ransomware_procedure() -> (r: AttackProcedure)
    ensures
        r.id@ == "proc-rw-01"@,
        r.name@ == "Ransomware Deployment"@,
        r.technique_id@ == "T1486"@,
        views(r.steps@) == seq![
                "Establish domain admin access"@,
                "Delete volume shadow copies to prevent recovery"@,
                "Deploy ransomware binary via GPO or SMB"@,
                "Execute ransomware on all reachable systems"@,
                "Drop ransom note demanding payment"@,
            ],
        views(r.tools@) == seq!["Custom ransomware"@, "Cobalt Strike"@, "PsExec"@],
{
    let steps: Vec<&str> = vec![
            "Establish domain admin access",
            "Delete volume shadow copies to prevent recovery",
            "Deploy ransomware binary via GPO or SMB",
            "Execute ransomware on all reachable systems",
            "Drop ransom note demanding payment",
        ];
    let tools: Vec<&str> = vec!["Custom ransomware", "Cobalt Strike", "PsExec"];
    let r = AttackProcedure::new("proc-rw-01", "Ransomware Deployment", "T1486").with_steps(steps).with_tools(tools);
    assert(str_views(steps@) == seq![
                "Establish domain admin access"@,
                "Delete volume shadow copies to prevent recovery"@,
                "Deploy ransomware binary via GPO or SMB"@,
                "Execute ransomware on all reachable systems"@,
                "Drop ransom note demanding payment"@,
            ]);
    assert(str_views(tools@) == seq!["Custom ransomware"@, "Cobalt Strike"@, "PsExec"@]);
    r
}

pub fn data_exfil_procedure() -> (r: AttackProcedure)
    ensures
        r.id@ == "proc-exf-01"@,
        r.name@ == "DNS Tunnel Exfiltration"@,
        r.technique_id@ == "T1048.003"@,
        views(r.steps@) == seq![
                "Identify target data (databases, files, credentials)"@,
                "Compress and encode data for transmission"@,
                "Establish DNS tunnel to attacker-controlled DNS server"@,
                "Transmit encoded data as DNS TXT record queries"@,
                "Verify receipt on attacker infrastructure"@,
            ],
        views(r.tools@) == seq!["DNScat2"@, "Iodine"@, "Custom DNS client"@],
{
    let steps: Vec<&str> = vec![
            "Identify target data (databases, files, credentials)",
            "Compress and encode data for transmission",
            "Establish DNS tunnel to attacker-controlled DNS server",
            "Transmit encoded data as DNS TXT record queries",
            "Verify receipt on attacker infrastructure",
        ];
    let tools: Vec<&str> = vec!["DNScat2", "Iodine", "Custom DNS client"];
    let r = AttackProcedure::new("proc-exf-01", "DNS Tunnel Exfiltration", "T1048.003").with_steps(steps).with_tools(tools);
    assert(str_views(steps@) == seq![
                "Identify target data (databases, files, credentials)"@,
                "Compress and encode data for transmission"@,
                "Establish DNS tunnel to attacker-controlled DNS server"@,
                "Transmit encoded data as DNS TXT record queries"@,
                "Verify receipt on attacker infrastructure"@,
            ]);
    assert(str_views(tools@) == seq!["DNScat2"@, "Iodine"@, "Custom DNS client"@]);
    r
}

} // verus!
