//! The methods that connections can call.

pub mod topic;
