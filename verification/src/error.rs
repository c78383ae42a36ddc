//! The errors of the registry and of the task queue.

use vstd::prelude::*;

verus! {

/// What can go wrong in an operation on the registry or on the task queue.
#[derive(Clone, Copy, Debug, PartialEq, Eq, Structural)]
pub enum Error {
    /// Another technique already owns the short name.
    NameAlreadyExists,
    /// No technique with the given id was found.
    NotRegistered,
    /// The technique manifest breaks the rule on versions.
    InvalidInfoFile,
    /// The workspace is already the published one.
    AlreadyPublished,
    /// The technique holds as many unpublished workspaces as the system allows.
    MaxWorkspacesExceeded,
    /// Any other failure.
    Unspecified,
}

impl Error {
    /// The text shown to a user for this error.
    pub open spec fn spec_message(self) -> Seq<char> {
        match self {
            Error::NameAlreadyExists => "technique with the same name already exists"@,
            Error::NotRegistered => "no technique with the given id was found"@,
            Error::InvalidInfoFile => "invalid info.json file"@,
            Error::AlreadyPublished => "technique is already published"@,
            Error::MaxWorkspacesExceeded => "maximum number of workspaces exceeded"@,
            Error::Unspecified => "unspecified error"@,
        }
    }

    /// The text shown to a user for this error.
    pub fn message(&self) -> (text: &'static str)
        ensures
            text@ == self.spec_message(),
    {
        match self {
            Error::NameAlreadyExists => "technique with the same name already exists",
            Error::NotRegistered => "no technique with the given id was found",
            Error::InvalidInfoFile => "invalid info.json file",
            Error::AlreadyPublished => "technique is already published",
            Error::MaxWorkspacesExceeded => "maximum number of workspaces exceeded",
            Error::Unspecified => "unspecified error",
        }
    }

    /// Whether the error reports a broken rule of the registry, as opposed to an
    /// internal failure.
    pub open spec fn spec_is_domain(self) -> bool {
        self != Error::Unspecified
    }

    /// Whether the error reports a broken rule of the registry, as opposed to an
    /// internal failure.
    pub fn is_domain(&self) -> (domain: bool)
        ensures
            domain == self.spec_is_domain(),
    {
        match self {
            Error::Unspecified => false,
            _ => true,
        }
    }
}

} // verus!
