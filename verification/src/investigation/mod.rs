pub mod engine;
pub mod evidence;
pub mod queries;
pub mod timeline;

pub use engine::InvestigationSummary;
pub use evidence::EvidenceCollector;
pub use queries::InvestigationQuery;
pub use timeline::{Timeline, TimelineEntry};
