//! Vocabulary token identifiers.

use vstd::prelude::*;

use crate::context::LContext;
use crate::error::LError;

verus! {

/// A single token: an opaque signed identifier into the model's vocabulary.
///
/// Two identifiers are reserved sentinels — beginning-of-stream and
/// end-of-stream. Which identifiers those are is a property of the loaded
/// model, so classification goes through the owning [`LContext`].
#[derive(Clone, Copy, Debug, PartialEq, Eq, Structural)]
pub struct LToken(pub i32);

impl LToken {
    /// The placeholder identifier that padding and cleared buffers hold.
    pub fn default_token() -> (r: i32)
        ensures
            r == 0i32,
    {
        0
    }

    /// The raw identifier.
    pub fn id(&self) -> (r: i32)
        ensures
            r == self.0,
    {
        self.0
    }

    /// True when the token has a renderable text form, that is, when it is
    /// neither of the session's stream sentinels.
    pub fn has_str_value(&self, context: &LContext) -> (r: bool)
        ensures
            r == (self.0 != context.spec_eos() && self.0 != context.spec_bos()),
    {
        !self.is_end_of_stream(context) && !self.is_beginning_of_stream(context)
    }

    /// True when the token is the session's end-of-stream sentinel.
    pub fn is_end_of_stream(&self, context: &LContext) -> (r: bool)
        ensures
            r == (self.0 == context.spec_eos()),
    {
        self.0 == context.eos()
    }

    /// True when the token is the session's beginning-of-stream sentinel.
    pub fn is_beginning_of_stream(&self, context: &LContext) -> (r: bool)
        ensures
            r == (self.0 == context.spec_bos()),
    {
        self.0 == context.bos()
    }

    /// The admission rule of rendering: a sentinel token has no text form,
    /// and the refusal comes before any native call is made.
    pub fn render_admit(&self, context: &LContext) -> (r: Result<(), LError>)
        ensures
            r is Ok <==> (self.0 != context.spec_eos() && self.0 != context.spec_bos()),
            r is Err ==> r matches Err(LError::TokenizationError(_)),
    {
        if self.has_str_value(context) {
            Ok(())
        } else {
            Err(LError::TokenizationError("no string repr available for token".to_owned()))
        }
    }
}

/// The length check of rendering: the native renderer reported
/// `piece_length` written bytes into a buffer of `buffer_len` bytes. A
/// negative report is the native failure; a report beyond the buffer can only
/// be a native fault; an in-range report means the piece occupies exactly the
/// first `piece_length` bytes.
pub fn render_length_check(piece_length: i32, buffer_len: usize) -> (r: Result<usize, LError>)
    ensures
        0 <= piece_length <= buffer_len ==> r == Ok::<usize, LError>(piece_length as usize),
        piece_length < 0 ==> r matches Err(LError::InvalidCString(_)),
        piece_length > buffer_len ==> r matches Err(LError::ApiError(_)),
        r is Ok <==> 0 <= piece_length <= buffer_len,
{
    if piece_length < 0 {
        return Err(
            LError::InvalidCString("native renderer reported a negative byte count".to_owned()),
        );
    }
    let n = piece_length as usize;
    if n > buffer_len {
        return Err(
            LError::ApiError("native renderer reported more bytes than the buffer holds".to_owned()),
        );
    }
    Ok(n)
}

impl From<i32> for LToken {
    fn from(value: i32) -> (r: LToken) {
        LToken(value)
    }
}

impl vstd::std_specs::convert::FromSpecImpl<i32> for LToken {
    open spec fn obeys_from_spec() -> bool {
        true
    }

    open spec fn from_spec(v: i32) -> LToken {
        LToken(v)
    }
}

} // verus!
