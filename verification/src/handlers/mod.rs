//! The decisions of the two directions of a connection.

pub mod line;
pub mod response_handler;
pub mod rx_command_handler;
pub mod tx_command_handler;
