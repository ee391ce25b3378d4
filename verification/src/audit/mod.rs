pub mod report;

pub use report::{AttackTestResult, AuditFinding, AuditReport, AuditSeverity, AuditSummary};
pub mod scanner;

pub mod attacks;
pub mod engine;
pub use engine::AuditEngine;
