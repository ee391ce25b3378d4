pub mod text;
pub mod lines;
pub mod clock;
pub mod random;
pub mod models;
pub mod incident;
pub mod pattern;
pub mod detection;
pub mod config;
pub mod ordered;
pub mod investigation;
pub mod response;
pub mod database;
pub mod scenarios;
pub mod attack;
pub mod audit;
pub mod logging;
pub mod api;
pub mod seed;
