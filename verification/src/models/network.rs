use vstd::prelude::*;

verus! {

/// A node of the simulated network topology.
#[derive(Debug, Clone)]
pub struct NetworkNode {
    pub id: String,
    pub name: String,
    pub ip_address: String,
    pub node_type: String,
    pub zone: String,
}

/// A link between two nodes.
#[derive(Debug, Clone)]
pub struct NetworkConnection {
    pub source_id: String,
    pub target_id: String,
    pub protocol: String,
    pub port: u16,
}

/// Nodes and the links between them.
#[derive(Debug, Clone)]
pub struct NetworkTopology {
    pub nodes: Vec<NetworkNode>,
    pub connections: Vec<NetworkConnection>,
}

} // verus!
