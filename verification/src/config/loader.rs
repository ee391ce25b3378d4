//! Detection rule entries as configuration holds them.
use vstd::prelude::*;

verus! {

/// The rules section of a detection rule file.
#[derive(Debug)]
pub struct DetectionRulesConfig {
    pub rules: Vec<DetectionRuleEntry>,
}

/// One configured detection rule.
#[derive(Debug, Clone)]
pub struct DetectionRuleEntry {
    pub id: String,
    pub name: String,
    pub description: String,
    pub severity: String,
    pub pattern: String,
    pub source: String,
    pub enabled: bool,
}

/// A rule entry as plain texts: id, name, description, severity, pattern,
/// source.
pub open spec fn entry_texts(e: DetectionRuleEntry) -> (
    Seq<char>,
    Seq<char>,
    Seq<char>,
    Seq<char>,
    Seq<char>,
    Seq<char>,
) {
    (e.id@, e.name@, e.description@, e.severity@, e.pattern@, e.source@)
}

/// The built-in rules used when no rule file is present.
pub open spec fn builtin_rules() -> Seq<(Seq<char>, Seq<char>, Seq<char>, Seq<char>, Seq<char>, Seq<char>)> {
    seq![
        ("brute-force"@, "Brute Force Detection"@, "Multiple failed authentication attempts"@, "high"@, "(?i)failed.*(login|auth|password)"@, "authentication"@),
        ("malware-exec"@, "Suspicious Process Execution"@, "Known malicious process patterns"@, "critical"@, "(?i)(powershell.*-enc|cmd\\.exe.*\\/c|wscript\\.exe)"@, "endpoint"@),
        ("lateral-movement"@, "Lateral Movement"@, "Internal network scanning or SMB activity"@, "high"@, "(?i)(smb|psexec|wmi|rdp.*connect)"@, "network"@),
        ("data-exfil"@, "Data Exfiltration"@, "Large outbound data transfer"@, "critical"@, "(?i)(upload|exfil|large.*transfer|dns.*tunnel)"@, "firewall"@),
        ("phishing"@, "Phishing Email"@, "Suspicious email with malicious link"@, "medium"@, "(?i)(phish|malicious.*link|credential.*harvest)"@, "email"@),
    ]
}

fn entry(id: &str, name: &str, description: &str, severity: &str, pattern: &str, source: &str) -> (r: DetectionRuleEntry)
    ensures
        entry_texts(r) == (id@, name@, description@, severity@, pattern@, source@),
        r.enabled,
{
    DetectionRuleEntry {
        id: String::from_str(id),
        name: String::from_str(name),
        description: String::from_str(description),
        severity: String::from_str(severity),
        pattern: String::from_str(pattern),
        source: String::from_str(source),
        enabled: true,
    }
}

/// The built-in detection rules, all enabled.
pub fn default_detection_rules() -> (r: Vec<DetectionRuleEntry>)
    ensures
        r@.map_values(|e: DetectionRuleEntry| entry_texts(e)) == builtin_rules(),
        forall|i: int| 0 <= i < r@.len() ==> (#[trigger] r@[i]).enabled,
{
    let mut v: Vec<DetectionRuleEntry> = Vec::new();
    v.push(entry("brute-force", "Brute Force Detection", "Multiple failed authentication attempts", "high", "(?i)failed.*(login|auth|password)", "authentication"));
    v.push(entry("malware-exec", "Suspicious Process Execution", "Known malicious process patterns", "critical", "(?i)(powershell.*-enc|cmd\\.exe.*\\/c|wscript\\.exe)", "endpoint"));
    v.push(entry("lateral-movement", "Lateral Movement", "Internal network scanning or SMB activity", "high", "(?i)(smb|psexec|wmi|rdp.*connect)", "network"));
    v.push(entry("data-exfil", "Data Exfiltration", "Large outbound data transfer", "critical", "(?i)(upload|exfil|large.*transfer|dns.*tunnel)", "firewall"));
    v.push(entry("phishing", "Phishing Email", "Suspicious email with malicious link", "medium", "(?i)(phish|malicious.*link|credential.*harvest)", "email"));
    assert(v@.map_values(|e: DetectionRuleEntry| entry_texts(e)) =~= builtin_rules());
    v
}

} // verus!
