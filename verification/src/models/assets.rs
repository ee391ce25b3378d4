use vstd::prelude::*;

verus! {

/// A network asset of the simulated organisation.
#[derive(Debug, Clone)]
pub struct Asset {
    pub id: String,
    pub hostname: String,
    pub ip_address: String,
    pub asset_type: String,
    pub os: String,
    pub criticality: String,
    pub department: String,
    pub status: String,
}

/// A host on the simulated network.
#[derive(Debug, Clone)]
pub struct Host {
    pub id: String,
    pub hostname: String,
    pub ip_address: String,
    pub mac_address: String,
    pub os: String,
    pub role: String,
    pub zone: String,
}

} // verus!
