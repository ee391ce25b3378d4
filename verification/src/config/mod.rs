pub mod env;
pub mod loader;
pub mod settings;

pub use env::constant_time_eq;
pub use loader::{default_detection_rules, DetectionRuleEntry, DetectionRulesConfig};
pub use settings::{DatabaseSettings, ServerSettings, SimulationSettings};
