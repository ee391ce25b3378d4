

pub mod tactics;




pub use tactics::Tactic;

pub mod techniques;
pub use techniques::{find_technique, technique_registry, Technique};
pub mod mitre;
pub use mitre::MitreMapper;
pub mod procedures;
pub use procedures::AttackProcedure;
