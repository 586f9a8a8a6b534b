//! Domain rejections of the state machine.
//!
//! Every error is a synchronous, non-retryable refusal of one operation:
//! the record is left untouched and no event is emitted.

use vstd::prelude::*;

verus! {

/// Why an operation on a project record was refused.
#[derive(Clone, Copy, Debug, PartialEq, Eq)]
pub enum ErrorCode {
    /// The caller is not the principal that the operation requires.
    Unauthorized,
    /// The referenced material index does not exist in the record.
    InvalidMaterialIndex,
    /// The project has already been marked as verified.
    ProjectAlreadyVerified,
    /// The material has already been verified.
    MaterialAlreadyVerified,
}

impl ErrorCode {
    /// The description that `message` returns for each variant.
    pub open spec fn message_spec(&self) -> Seq<char> {
        match self {
            ErrorCode::Unauthorized => "You are not authorized to perform this action."@,
            ErrorCode::InvalidMaterialIndex => "Invalid material index provided."@,
            ErrorCode::ProjectAlreadyVerified => "The project has already been marked as verified."@,
            ErrorCode::MaterialAlreadyVerified => "The material has already been verified."@,
        }
    }

    /// A human-readable description of the rejection.
    pub fn message(&self) -> (r: &'static str)
        ensures
            r@ == self.message_spec(),
    {
        match self {
            ErrorCode::Unauthorized => "You are not authorized to perform this action.",
            ErrorCode::InvalidMaterialIndex => "Invalid material index provided.",
            ErrorCode::ProjectAlreadyVerified => "The project has already been marked as verified.",
            ErrorCode::MaterialAlreadyVerified => "The material has already been verified.",
        }
    }
}

} // verus!
