//! The translator's side of the miners.
pub mod accept_connection;
pub mod send_to_downstream;
