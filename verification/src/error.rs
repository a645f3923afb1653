//! What can go wrong.

use vstd::prelude::*;
use crate::ais::run::RunStatus;

verus! {

/// An error that ends the step at hand.
#[derive(Debug, Clone, PartialEq, Eq)]
pub enum BuddyError {
    /// A glob pattern that does not parse.
    InvalidPattern { pattern: String },
    /// Patterns that parse one by one but do not compile into one set.
    PatternSet,
    /// A source to bundle that is not an existing regular file.
    NotAFile { path: String },
    /// A thread without a message.
    NoMessage,
    /// A message without content.
    NoMessageContent,
    /// A message whose content is an image.
    ImageNotSupported,
    /// A run that ended in another state than completed.
    RunFailed { status: RunStatus },
}

impl BuddyError {
    /// A copy of the error.
    pub fn duplicate(&self) -> (copy: BuddyError)
        ensures
            copy == *self,
    {
        match self {
            BuddyError::InvalidPattern { pattern } => BuddyError::InvalidPattern { pattern: pattern.clone() },
            BuddyError::PatternSet => BuddyError::PatternSet,
            BuddyError::NotAFile { path } => BuddyError::NotAFile { path: path.clone() },
            BuddyError::NoMessage => BuddyError::NoMessage,
            BuddyError::NoMessageContent => BuddyError::NoMessageContent,
            BuddyError::ImageNotSupported => BuddyError::ImageNotSupported,
            BuddyError::RunFailed { status } => BuddyError::RunFailed { status: *status },
        }
    }
}

} // verus!
