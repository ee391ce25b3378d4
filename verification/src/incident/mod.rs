pub mod lifecycle;
pub mod ops;
pub mod state;

pub use lifecycle::IncidentLifecycle;
pub use state::{IncidentState, StatusCounts};
