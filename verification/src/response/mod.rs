pub mod actions;
pub mod containment;
pub mod engine;
pub mod eradication;
pub mod recovery;

pub use actions::{ActionRecord, ResponseAction, ResponseActionType};
pub use containment::ContainmentOps;
pub use engine::ExecuteActionRequest;
pub use eradication::EradicationOps;
pub use recovery::RecoveryOps;
