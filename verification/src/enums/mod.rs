//! The two tagged unions that peers exchange.

pub mod command;
pub mod response;
