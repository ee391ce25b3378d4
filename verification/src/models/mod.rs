pub mod alert;
pub mod assets;
pub mod event;
pub mod evidence;
pub mod incident;
pub mod log;
pub mod network;
pub mod user;

pub use alert::{Alert, AlertStatus};
pub use assets::{Asset, Host};
pub use event::{EventSource, SecurityEvent};
pub use evidence::{Evidence, EvidenceType};
pub use incident::{Incident, IncidentSeverity, IncidentStatus};
pub use log::LogEntry;
pub use network::{NetworkConnection, NetworkNode, NetworkTopology};
pub use user::{Analyst, User, UserDbRecord, UserRole};
