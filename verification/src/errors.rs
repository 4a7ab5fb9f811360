//! The decoder's error type.
//!
//! A decode failure always names what went wrong; a failure over a field
//! carries the field's name, and a failed numeric coercion carries the
//! offending text as well.

use vstd::prelude::*;

verus! {

/// Mathematical model of a decode error.
pub ghost enum SpecDecodeError {
    Syntax,
    NotArray,
    NotObject,
    MissingField(Seq<char>),
    WrongKind(Seq<char>, Seq<char>),
    BadNumber(Seq<char>, Seq<char>),
}

/// Why a decode call failed.
#[derive(Debug)]
pub enum DecodeError {
    /// The text is not a well-formed JSON document.
    Syntax,
    /// The document is not the expected JSON array.
    NotArray,
    /// The document, or an array element, is not a JSON object.
    NotObject,
    /// A required field is absent; carries the field's name.
    MissingField(String),
    /// A field holds the wrong kind of JSON value; carries the field's name
    /// and the name of the kind found.
    WrongKind(String, String),
    /// A numeric text failed to parse in the target type; carries the
    /// field's name and the offending text.
    BadNumber(String, String),
}

impl View for DecodeError {
    type V = SpecDecodeError;

    open spec fn view(&self) -> SpecDecodeError {
        match self {
            DecodeError::Syntax => SpecDecodeError::Syntax,
            DecodeError::NotArray => SpecDecodeError::NotArray,
            DecodeError::NotObject => SpecDecodeError::NotObject,
            DecodeError::MissingField(f) => SpecDecodeError::MissingField(f@),
            DecodeError::WrongKind(f, k) => SpecDecodeError::WrongKind(f@, k@),
            DecodeError::BadNumber(f, t) => SpecDecodeError::BadNumber(f@, t@),
        }
    }
}

} // verus!
