//! What each command asks of the API, and the checks and steps around it.
pub mod auth;
pub mod channel;
pub mod describe;
pub mod package;
pub mod resolve;
