use vstd::prelude::*;

verus! {

/// Where the HTTP server listens and what it serves.
#[derive(Debug, Clone)]
pub struct ServerSettings {
    pub host: String,
    pub port: u16,
    pub static_dir: String,
}

/// Where the database lives.
#[derive(Debug, Clone)]
pub struct DatabaseSettings {
    pub path: String,
}

/// How the simulation ticks and where its scenarios are.
#[derive(Debug, Clone)]
pub struct SimulationSettings {
    pub tick_interval_ms: u64,
    pub max_events_per_tick: usize,
    pub scenario_dir: String,
}

/// The server settings used when no configuration file is present.
pub fn default_server_settings() -> (r: ServerSettings)
    ensures
        r.host@ == "127.0.0.1"@,
        r.port == 8080,
        r.static_dir@ == "fronted"@,
{
    ServerSettings { host: String::from_str("127.0.0.1"), port: 8080, static_dir: String::from_str("fronted") }
}

/// The database settings used when no configuration file is present.
pub fn default_database_settings() -> (r: DatabaseSettings)
    ensures
        r.path@ == "data/simulator.db"@,
{
    DatabaseSettings { path: String::from_str("data/simulator.db") }
}

/// The simulation settings used when no configuration file is present.
pub fn default_simulation_settings() -> (r: SimulationSettings)
    ensures
        r.tick_interval_ms == 1000,
        r.max_events_per_tick == 10,
        r.scenario_dir@ == "scenarios"@,
{
    SimulationSettings {
        tick_interval_ms: 1000,
        max_events_per_tick: 10,
        scenario_dir: String::from_str("scenarios"),
    }
}

} // verus!
