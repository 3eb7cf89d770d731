use vstd::prelude::*;

verus! {

/// Failure of a repository operation.
#[derive(Debug)]
pub enum RepoError {
    /// A malformed or wrong-kind identifier, or a malformed patch.
    InvalidInput(String),
    /// The record looked up, updated or deleted does not exist.
    NotFound,
    /// The update names no field to change.
    NoOp,
    /// The backend failed; the text describes the cause.
    DbError(String),
}

impl RepoError {
    /// Human-readable text of the error.
    pub fn message(&self) -> (r: String)
        ensures
            r@ == self.message_spec(),
    {
        match self {
            RepoError::InvalidInput(detail) => "invalid input: ".to_owned().concat(detail.as_str()),
            RepoError::NotFound => "not found".to_owned(),
            RepoError::NoOp => "noop".to_owned(),
            RepoError::DbError(cause) => cause.clone(),
        }
    }

    /// Text of the error.
    pub open spec fn message_spec(&self) -> Seq<char> {
        match self {
            RepoError::InvalidInput(detail) => "invalid input: "@ + detail@,
            RepoError::NotFound => "not found"@,
            RepoError::NoOp => "noop"@,
            RepoError::DbError(cause) => cause@,
        }
    }
}

} // verus!
