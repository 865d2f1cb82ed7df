//! The shapes of requests, responses and configuration.

pub mod account;
pub mod config_schema;
pub mod message_schema;
pub mod topic_schema;
