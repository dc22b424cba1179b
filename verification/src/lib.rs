//! Verified core of a command-line client for the prefix.dev GraphQL API.
pub mod cli;
pub mod client;
pub mod commands;
pub mod queries;
pub mod text;
pub mod urls;
pub mod json;
pub mod json_text;
pub mod json_map;
pub mod json_parse;
pub mod error;
pub mod format;
pub mod report;
pub mod response;
