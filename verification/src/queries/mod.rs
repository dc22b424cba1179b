//! The GraphQL scalars, enums, input objects and operation variables the
//! client sends, and the response shapes its logic reads.
pub mod auth;
pub mod channel;
pub mod common;
pub mod package;
