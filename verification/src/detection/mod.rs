pub mod correlation;
pub mod engine;
pub mod ioc;
pub mod rule;
pub mod severity;

pub use engine::{DetectionEngine, DetectionMatch};
pub use ioc::IocList;
pub use rule::DetectionRule;
pub use severity::Severity;
