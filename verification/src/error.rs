//! Why a payload was not decoded.

use vstd::prelude::*;

verus! {

/// The reason for which a payload stands for no message. A payload that
/// fails in more than one way is reported by the first of these that
/// applies to it.
#[derive(Debug, Clone, Copy, PartialEq, Eq, Hash)]
pub enum DecodeError {
    /// The parser did not read the bytes as one JSON value: they are
    /// malformed, or arrays and objects are nested too deeply in them.
    Syntax,
    /// The value carries no discriminator: it is neither a bare variant name
    /// nor an object whose single member is named after a variant (for an
    /// acknowledgement: not an object with a `status` member).
    MissingTag,
    /// The discriminator is not the name of a declared variant.
    UnknownVariant,
    /// A field that the variant requires is absent.
    MissingField,
    /// A field, or the body of the variant, holds a value of the wrong kind
    /// or out of range.
    InvalidType,
}

impl DecodeError {
    /// A short description of the error, for logs and replies.
    pub fn message(&self) -> (text: &'static str)
        ensures
            text@ == (match *self {
                DecodeError::Syntax => "malformed JSON"@,
                DecodeError::MissingTag => "missing variant tag"@,
                DecodeError::UnknownVariant => "unknown variant"@,
                DecodeError::MissingField => "missing field"@,
                DecodeError::InvalidType => "invalid type"@,
            }),
    {
        match self {
            DecodeError::Syntax => "malformed JSON",
            DecodeError::MissingTag => "missing variant tag",
            DecodeError::UnknownVariant => "unknown variant",
            DecodeError::MissingField => "missing field",
            DecodeError::InvalidType => "invalid type",
        }
    }
}

/// The outcome of a decoding, with the message taken by its view.
pub open spec fn decoded<T: View>(r: Result<T, DecodeError>) -> Result<T::V, DecodeError> {
    match r {
        Ok(message) => Ok(message@),
        Err(e) => Err(e),
    }
}

} // verus!
