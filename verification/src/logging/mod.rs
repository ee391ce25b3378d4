pub mod formatter;

pub use formatter::LogFormatter;
pub mod generator;
pub use generator::LogGenerator;
pub mod parser;
pub use parser::LogParser;

pub mod syslog;
