pub mod diffuculty;
pub mod generator;
pub mod loader;
pub mod scenario;

pub use diffuculty::Difficulty;
pub use generator::EventGenerator;
pub use scenario::ScenarioEvent;
pub use loader::ScenarioLoader;
