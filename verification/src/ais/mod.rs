//! The remote assistant service, seen from the decisions that drive it.

pub mod assistant;
pub mod files;
pub mod msg;
pub mod run;
pub mod remote;
pub mod upload;
