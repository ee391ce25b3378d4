use vstd::prelude::*;

verus! {

/// A single event definition in a scenario file.
#[derive(Debug, Clone)]
pub struct ScenarioEvent {
    pub offset_secs: u64,
    pub source: String,
    pub event_type: String,
    pub message: String,
    pub host: String,
    pub source_ip: Option<String>,
    pub destination_ip: Option<String>,
    pub user: Option<String>,
    pub is_malicious: bool,
    pub mitre_technique: Option<String>,
}

} // verus!
