//! The job declaration client.
pub mod job_declarator;
pub mod messages;
pub mod utils;
