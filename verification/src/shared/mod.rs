//! What the parts of the proxy share.
pub mod error;
pub mod utils;
