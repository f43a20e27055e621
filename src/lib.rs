pub mod any;
pub mod error;
pub mod ids;
pub mod laws;
pub mod topic_create;
pub mod transaction;
pub mod wire;
