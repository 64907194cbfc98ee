//! The error taxonomy of the session library.

use vstd::prelude::*;

verus! {

/// Every failure the library reports to its callers.
#[derive(Clone, Debug)]
pub enum LError {
    /// A string handed to the native layer holds an interior NUL byte and
    /// cannot be encoded as a C string.
    InvalidCString(String),
    /// The native tokenizer returned a negative count, or a token with no
    /// text form was asked for its text.
    TokenizationError(String),
    /// A native call returned a nonzero status code.
    ApiError(String),
    /// `sample` was called on a session that has never evaluated a token:
    /// the logit distribution is meaningless, so the call is refused.
    CannotSampleBeforeInference,
    /// A pending evaluation would not fit into the remaining context window.
    OutOfBufferSpace(String),
}

impl LError {
    /// An exact copy, for surfacing an error while the state keeps it.
    pub fn duplicate(&self) -> (r: LError)
        ensures
            r == *self,
    {
        match self {
            LError::InvalidCString(s) => LError::InvalidCString(s.clone()),
            LError::TokenizationError(s) => LError::TokenizationError(s.clone()),
            LError::ApiError(s) => LError::ApiError(s.clone()),
            LError::CannotSampleBeforeInference => LError::CannotSampleBeforeInference,
            LError::OutOfBufferSpace(s) => LError::OutOfBufferSpace(s.clone()),
        }
    }

    /// A short stable name for the variant, for diagnostics.
    pub fn kind_name(&self) -> (r: &'static str)
        ensures
            r@ == self.spec_kind_name(),
    {
        match self {
            LError::InvalidCString(_) => "invalid C string",
            LError::TokenizationError(_) => "tokenization error",
            LError::ApiError(_) => "api error",
            LError::CannotSampleBeforeInference => "cannot sample before inference",
            LError::OutOfBufferSpace(_) => "out of buffer space",
        }
    }

    /// What `kind_name` returns for each variant.
    pub open spec fn spec_kind_name(&self) -> Seq<char> {
        match self {
            LError::InvalidCString(_) => "invalid C string"@,
            LError::TokenizationError(_) => "tokenization error"@,
            LError::ApiError(_) => "api error"@,
            LError::CannotSampleBeforeInference => "cannot sample before inference"@,
            LError::OutOfBufferSpace(_) => "out of buffer space"@,
        }
    }
}

} // verus!
