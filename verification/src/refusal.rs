//! Why a rename is refused, and the status that says so.
use vstd::prelude::*;

use crate::types::Text;

verus! {

/// The status codes that a refusal is answered with.
#[derive(Clone, Copy, Debug, PartialEq, Eq, Structural)]
pub enum Code {
    InvalidArgument,
    NotFound,
    AlreadyExists,
    Aborted,
    Internal,
}

/// A status: its code and its message.
#[derive(Debug, PartialEq, Eq)]
pub struct Status<S = String> {
    pub code: Code,
    pub message: S,
}

impl View for Status {
    type V = Status<Text>;

    open spec fn view(&self) -> Status<Text> {
        Status { code: self.code, message: self.message@ }
    }
}

/// Why a rename is refused. An `error` is the text of the failure that a store
/// reported.
#[derive(Debug, PartialEq, Eq)]
pub enum Refusal<S = String> {
    /// The request names no repository.
    MissingQuery,
    /// The new name is not the name that a repository can have.
    InvalidName { name: S },
    /// The name in the request leads to no repository.
    NameNotFound { name: S },
    /// The repository in the request has the id of no repository.
    MissingId,
    /// The caller may not write to the repository.
    NoAccess,
    /// There is no metadata for the id; `id_text` is the id as the store's own
    /// id type displays it.
    IdNotFound { id_text: S },
    /// The new name belongs to another repository.
    AlreadyExists { name: S },
    /// The metadata blob with the new name could not be stored.
    BlobFailed { error: S },
    /// The metadata pointer could not be swapped.
    PointerFailed { error: S },
    /// The metadata pointer was moved by somebody else in the meantime.
    Conflict,
    /// The mapping for the new name could not be stored.
    MappingFailed { error: S },
    /// The mapping for the previous name could not be deleted.
    UnmappingFailed { error: S },
    /// A store asked to slow down.
    SlowDown,
}

impl View for Refusal {
    type V = Refusal<Text>;

    open spec fn view(&self) -> Refusal<Text> {
        match self {
            Refusal::MissingQuery => Refusal::MissingQuery,
            Refusal::InvalidName { name } => Refusal::InvalidName { name: name@ },
            Refusal::NameNotFound { name } => Refusal::NameNotFound { name: name@ },
            Refusal::MissingId => Refusal::MissingId,
            Refusal::NoAccess => Refusal::NoAccess,
            Refusal::IdNotFound { id_text } => Refusal::IdNotFound { id_text: id_text@ },
            Refusal::AlreadyExists { name } => Refusal::AlreadyExists { name: name@ },
            Refusal::BlobFailed { error } => Refusal::BlobFailed { error: error@ },
            Refusal::PointerFailed { error } => Refusal::PointerFailed { error: error@ },
            Refusal::Conflict => Refusal::Conflict,
            Refusal::MappingFailed { error } => Refusal::MappingFailed { error: error@ },
            Refusal::UnmappingFailed { error } => Refusal::UnmappingFailed { error: error@ },
            Refusal::SlowDown => Refusal::SlowDown,
        }
    }
}

impl Clone for Refusal {
    fn clone(&self) -> (copy: Refusal)
        ensures
            copy@ == self@,
    {
        match self {
            Refusal::MissingQuery => Refusal::MissingQuery,
            Refusal::InvalidName { name } => Refusal::InvalidName { name: name.clone() },
            Refusal::NameNotFound { name } => Refusal::NameNotFound { name: name.clone() },
            Refusal::MissingId => Refusal::MissingId,
            Refusal::NoAccess => Refusal::NoAccess,
            Refusal::IdNotFound { id_text } => Refusal::IdNotFound { id_text: id_text.clone() },
            Refusal::AlreadyExists { name } => Refusal::AlreadyExists { name: name.clone() },
            Refusal::BlobFailed { error } => Refusal::BlobFailed { error: error.clone() },
            Refusal::PointerFailed { error } => Refusal::PointerFailed { error: error.clone() },
            Refusal::Conflict => Refusal::Conflict,
            Refusal::MappingFailed { error } => Refusal::MappingFailed { error: error.clone() },
            Refusal::UnmappingFailed { error } => Refusal::UnmappingFailed { error: error.clone() },
            Refusal::SlowDown => Refusal::SlowDown,
        }
    }
}

impl Refusal<Text> {
    /// The status that answers the refusal. None where it is not this
    /// library's to word: a store's request to slow down is answered with the
    /// status that the store's own error stands for, and missing access with
    /// the one status that every handler gives.
    pub open spec fn status(self) -> Option<Status<Text>> {
        match self {
            Refusal::MissingQuery => Some(
                Status {
                    code: Code::InvalidArgument,
                    message: "RepositoryRenameRequest.query must be set (id or name)"@,
                },
            ),
            Refusal::InvalidName { name } => Some(
                Status {
                    code: Code::InvalidArgument,
                    message: "Invalid repository name "@ + name,
                },
            ),
            Refusal::NameNotFound { name } => Some(
                Status { code: Code::NotFound, message: "Repository "@ + name + " not found"@ },
            ),
            Refusal::MissingId => Some(
                Status { code: Code::InvalidArgument, message: "Missing repository id"@ },
            ),
            Refusal::NoAccess => None,
            Refusal::IdNotFound { id_text } => Some(
                Status { code: Code::NotFound, message: "Repository "@ + id_text + " not found"@ },
            ),
            Refusal::AlreadyExists { name } => Some(
                Status {
                    code: Code::AlreadyExists,
                    message: "Repository "@ + name + " already exists"@,
                },
            ),
            Refusal::BlobFailed { error } => Some(
                Status {
                    code: Code::Internal,
                    message: "failed to store renamed metadata: "@ + error,
                },
            ),
            Refusal::PointerFailed { error } => Some(
                Status { code: Code::Internal, message: "failed to update metadata: "@ + error },
            ),
            Refusal::Conflict => Some(
                Status {
                    code: Code::Aborted,
                    message: "repository metadata was modified concurrently"@,
                },
            ),
            Refusal::MappingFailed { error } => Some(
                Status {
                    code: Code::Internal,
                    message: "Failed to store repository name mapping: "@ + error,
                },
            ),
            Refusal::UnmappingFailed { error } => Some(
                Status {
                    code: Code::Internal,
                    message: "Failed to delete previous repository name mapping: "@ + error,
                },
            ),
            Refusal::SlowDown => None,
        }
    }
}

/// The view of a status that may be missing.
pub open spec fn view_status(status: Option<Status>) -> Option<Status<Text>> {
    match status {
        Some(status) => Some(status@),
        None => None,
    }
}

/// `before`, then `middle`, then `after`.
fn join(before: &str, middle: &str, after: &str) -> (joined: String)
    ensures
        joined@ == before@ + middle@ + after@,
{
    before.to_owned().concat(middle).concat(after)
}

impl Refusal {
    /// The status that answers the refusal; `None` for the two refusals whose
    /// status comes from elsewhere, `NoAccess` and `SlowDown`.
    pub fn to_status(&self) -> (status: Option<Status>)
        ensures
            view_status(status) == self@.status(),
    {
        let (code, message) = match self {
            Refusal::MissingQuery => (
                Code::InvalidArgument,
                "RepositoryRenameRequest.query must be set (id or name)".to_owned(),
            ),
            Refusal::InvalidName { name } => (
                Code::InvalidArgument,
                "Invalid repository name ".to_owned().concat(name.as_str()),
            ),
            Refusal::NameNotFound { name } => (
                Code::NotFound,
                join("Repository ", name.as_str(), " not found"),
            ),
            Refusal::MissingId => (Code::InvalidArgument, "Missing repository id".to_owned()),
            Refusal::NoAccess => {
                return None;
            },
            Refusal::IdNotFound { id_text } => (
                Code::NotFound,
                join("Repository ", id_text.as_str(), " not found"),
            ),
            Refusal::AlreadyExists { name } => (
                Code::AlreadyExists,
                join("Repository ", name.as_str(), " already exists"),
            ),
            Refusal::BlobFailed { error } => (
                Code::Internal,
                "failed to store renamed metadata: ".to_owned().concat(error.as_str()),
            ),
            Refusal::PointerFailed { error } => (
                Code::Internal,
                "failed to update metadata: ".to_owned().concat(error.as_str()),
            ),
            Refusal::Conflict => (
                Code::Aborted,
                "repository metadata was modified concurrently".to_owned(),
            ),
            Refusal::MappingFailed { error } => (
                Code::Internal,
                "Failed to store repository name mapping: ".to_owned().concat(error.as_str()),
            ),
            Refusal::UnmappingFailed { error } => (
                Code::Internal,
                "Failed to delete previous repository name mapping: ".to_owned().concat(
                    error.as_str(),
                ),
            ),
            Refusal::SlowDown => {
                return None;
            },
        };
        Some(Status { code: code, message: message })
    }
}

} // verus!
