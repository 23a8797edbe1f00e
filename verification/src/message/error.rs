//! Failure modes of the protocol message codec.

use vstd::prelude::*;

verus! {

/// The mathematical shape of a `ParseError`: the same variants, with the
/// carried strings abstracted to their character sequences.
pub enum ParseErrorV {
    Xml,
    Int,
    MissingElement(Seq<char>),
    UnknownEnumValue(Seq<char>, Seq<char>),
}

/// Why a protocol message could not be decoded.
#[derive(Debug, Clone, PartialEq, Eq)]
pub enum ParseError {
    /// The body is not well-formed XML.
    Xml,
    /// A numeric field does not hold a decimal number that fits its type.
    Int,
    /// A required element is absent or empty.
    MissingElement { name: String },
    /// An enumeration element holds a value outside its vocabulary.
    UnknownEnumValue { name: String, value: String },
}

impl View for ParseError {
    type V = ParseErrorV;

    open spec fn view(&self) -> ParseErrorV {
        match self {
            ParseError::Xml => ParseErrorV::Xml,
            ParseError::Int => ParseErrorV::Int,
            ParseError::MissingElement { name } => ParseErrorV::MissingElement(name@),
            ParseError::UnknownEnumValue { name, value } => ParseErrorV::UnknownEnumValue(
                name@,
                value@,
            ),
        }
    }
}

impl ParseError {
    pub fn missing_element(name: &str) -> (r: ParseError)
        ensures
            (r matches ParseError::MissingElement { name: n } && n@ == name@),
    {
        ParseError::MissingElement { name: name.to_owned() }
    }

    pub fn unknown_enum_value(name: &str, value: &str) -> (r: ParseError)
        ensures
            (r matches ParseError::UnknownEnumValue { name: n, value: v } && n@ == name@
                && v@ == value@),
    {
        ParseError::UnknownEnumValue { name: name.to_owned(), value: value.to_owned() }
    }
}

} // verus!
