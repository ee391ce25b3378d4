pub mod errors;

pub use errors::ApiError;
pub mod requests;
pub mod access;
