//! Decision logic of a command-line buddy that keeps a hosted assistant in
//! step with a local project: which files make up a bundle, what a bundle
//! holds, and which remote calls bring the assistant's files up to date.
//!
//! Nothing here touches the disk or the network. The caller performs each
//! step the library asks for and reports what came of it.

pub mod ais;
pub mod buddy;
pub mod command;
pub mod error;
pub mod text;
pub mod utils;
