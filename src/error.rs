//! The ways in which resolving a link can fail.

use vstd::prelude::*;
use vstd::string::*;

verus! {

/// A field that an operation needs and that its input lacks.
#[derive(Debug, Clone, Copy, PartialEq, Eq, Structural)]
pub enum Field {
    Host,
    Owner,
    Path,
    LineNumber,
    Branch,
}

/// Why no link could be resolved. Every one of them ends the run.
#[derive(Debug, Clone, Copy, PartialEq, Eq, Structural)]
pub enum LinkError {
    /// The selected operation needs a field that is absent.
    MissingField(Field),
    /// No provider claims the remote's host.
    UnknownHost,
    /// The provider has no address grammar for the selected operation.
    NotImplemented,
    /// The address built for the provider is not a valid URL.
    InvalidUrl,
    /// The address built for the provider is too long to be handled as a URL.
    TooLong,
    /// The remote could not be split into its parts.
    UnparsableRemote,
    /// The remote has a shape on which the remote parser faults, so it is not handed to
    /// it (see `plain_remote`).
    UnsupportedRemote,
    /// The working directory does not lie below the repository root.
    OutsideRepository,
    /// The line number after the path does not fit in 32 bits.
    LineNumberOutOfRange,
    /// The repository has no remote to pick by default.
    NoRemotes,
}

/// The message shown to a user for `e`.
pub open spec fn error_text(e: LinkError) -> Seq<char> {
    match e {
        LinkError::MissingField(Field::Host) => "No host found"@,
        LinkError::MissingField(Field::Owner) => "No owner found"@,
        LinkError::MissingField(Field::Path) => "No path found"@,
        LinkError::MissingField(Field::LineNumber) => "No line number found"@,
        LinkError::MissingField(Field::Branch) => "No branch found"@,
        LinkError::UnknownHost => "Unknown host"@,
        LinkError::NotImplemented => "Not implemented"@,
        LinkError::InvalidUrl => "Invalid URL"@,
        LinkError::TooLong => "URL too long"@,
        LinkError::UnparsableRemote => "Could not parse the remote URL"@,
        LinkError::UnsupportedRemote => "Remote URL not supported"@,
        LinkError::OutsideRepository => "Current directory is outside the repository"@,
        LinkError::LineNumberOutOfRange => "Line number out of range"@,
        LinkError::NoRemotes => "No remotes found"@,
    }
}

impl LinkError {
    /// The message shown to a user for this error.
    pub fn message(&self) -> (r: String)
        ensures
            r@ == error_text(*self),
    {
        let s = match self {
            LinkError::MissingField(Field::Host) => "No host found",
            LinkError::MissingField(Field::Owner) => "No owner found",
            LinkError::MissingField(Field::Path) => "No path found",
            LinkError::MissingField(Field::LineNumber) => "No line number found",
            LinkError::MissingField(Field::Branch) => "No branch found",
            LinkError::UnknownHost => "Unknown host",
            LinkError::NotImplemented => "Not implemented",
            LinkError::InvalidUrl => "Invalid URL",
            LinkError::TooLong => "URL too long",
            LinkError::UnparsableRemote => "Could not parse the remote URL",
            LinkError::UnsupportedRemote => "Remote URL not supported",
            LinkError::OutsideRepository => "Current directory is outside the repository",
            LinkError::LineNumberOutOfRange => "Line number out of range",
            LinkError::NoRemotes => "No remotes found",
        };
        String::from_str(s)
    }
}

/// The view of a result that holds a `String`.
pub open spec fn result_view(r: Result<String, LinkError>) -> Result<Seq<char>, LinkError> {
    match r {
        Ok(s) => Ok(s@),
        Err(e) => Err(e),
    }
}

} // verus!
