pub mod config;
pub mod digits;
pub mod errors;
pub mod handle;
pub mod health;
pub mod json;
pub mod laws;
pub mod probe;
pub mod status;
pub mod supervisor;
