//! What every frame goes through on its way to and from the wire.

pub mod communication;
pub mod compression;
pub mod http;
