//! Local files: which ones belong to a bundle, and what a bundle holds.

pub mod bundle;
pub mod files;
pub mod globs;
pub mod walk;
