//! Why a `Gemfile` lookup ended without a directory.
use vstd::prelude::*;

verus! {

/// The two ways in which the upward search for a `Gemfile` fails.
#[derive(Debug, Clone, Copy, PartialEq, Eq, Structural)]
pub enum BWErrors {
    /// Every directory up to the one without a parent was read, and none
    /// holds a `Gemfile`.
    FsRoot,
    /// A directory on the way up could not be read.
    FsNotFound,
}

/// The text shown for each error.
pub open spec fn message_of(e: BWErrors) -> Seq<char> {
    match e {
        BWErrors::FsRoot => "Reached FS Root"@,
        BWErrors::FsNotFound => "Unable to read directory"@,
    }
}

impl BWErrors {
    /// The human-readable text of this error.
    pub fn message(&self) -> (text: String)
        ensures
            text@ == message_of(*self),
    {
        match self {
            BWErrors::FsRoot => "Reached FS Root".to_owned(),
            BWErrors::FsNotFound => "Unable to read directory".to_owned(),
        }
    }
}

} // verus!
