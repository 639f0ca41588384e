pub mod constants;
pub mod error;
