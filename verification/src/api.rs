//! What the engine exchanges with a venue: requests and errors.

pub mod client;
pub mod error;
pub mod supported_api;
