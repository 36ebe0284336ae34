//! The error that reading a textual tuple can end in.

use vstd::prelude::*;
use crate::axis::Axis;
use crate::pattern::{fault_of, pattern_fault, PatternFault};

verus! {

/// `std::num::ParseFloatError`, the error of the standard library for a text
/// that is not a number.
#[verifier::external_type_specification]
#[verifier::external_body]
pub struct ExParseFloatError(std::num::ParseFloatError);

/// The kinds of failure.
#[derive(Clone, Debug, PartialEq, Eq)]
pub enum ParseErrorKind {
    /// The engine refused the pattern of the tuple format itself.
    Pattern(PatternFault),
    /// The text holds nothing of the shape `(x,y,z)`.
    MalformedFormat,
    /// A tuple was found, but one coordinate took no part in the match.
    MissingField(Axis),
    /// A coordinate was found, but it is not a number.
    InvalidNumber,
}

/// Why a text could not be read as a tuple.
#[derive(Clone, Debug, PartialEq, Eq)]
pub struct TupleParseError {
    pub kind: ParseErrorKind,
}

impl TupleParseError {
    /// The message for the user. A syntax fault of the pattern is described in
    /// the engine's own words.
    pub open spec fn message_text(&self) -> Seq<char> {
        match self.kind {
            ParseErrorKind::Pattern(PatternFault::Syntax(description)) => description@,
            ParseErrorKind::Pattern(PatternFault::TooBig) => "tuple pattern exceeds the size limit"@,
            ParseErrorKind::Pattern(PatternFault::Other) => "tuple pattern was refused"@,
            ParseErrorKind::MalformedFormat => "invalid tuple format (#.#, #.#, #.#)"@,
            ParseErrorKind::MissingField(Axis::X) => "missing x value"@,
            ParseErrorKind::MissingField(Axis::Y) => "missing y value"@,
            ParseErrorKind::MissingField(Axis::Z) => "missing z value"@,
            ParseErrorKind::InvalidNumber => "invalid numeric literal"@,
        }
    }

    /// The message for the user.
    pub fn message(&self) -> (message: String)
        ensures
            message@ == self.message_text(),
    {
        match &self.kind {
            ParseErrorKind::Pattern(PatternFault::Syntax(description)) => description.clone(),
            ParseErrorKind::Pattern(PatternFault::TooBig) => {
                "tuple pattern exceeds the size limit".to_owned()
            },
            ParseErrorKind::Pattern(PatternFault::Other) => "tuple pattern was refused".to_owned(),
            ParseErrorKind::MalformedFormat => "invalid tuple format (#.#, #.#, #.#)".to_owned(),
            ParseErrorKind::MissingField(Axis::X) => "missing x value".to_owned(),
            ParseErrorKind::MissingField(Axis::Y) => "missing y value".to_owned(),
            ParseErrorKind::MissingField(Axis::Z) => "missing z value".to_owned(),
            ParseErrorKind::InvalidNumber => "invalid numeric literal".to_owned(),
        }
    }
}

impl From<regex::Error> for TupleParseError {
    /// The error for a pattern that the engine refused with `e`.
    fn from(e: regex::Error) -> (r: TupleParseError)
        ensures
            r.kind == ParseErrorKind::Pattern(fault_of(e)),
    {
        TupleParseError { kind: ParseErrorKind::Pattern(pattern_fault(e)) }
    }
}

impl vstd::std_specs::convert::FromSpecImpl<regex::Error> for TupleParseError {
    open spec fn obeys_from_spec() -> bool {
        true
    }

    open spec fn from_spec(e: regex::Error) -> TupleParseError {
        TupleParseError { kind: ParseErrorKind::Pattern(fault_of(e)) }
    }
}

impl From<std::num::ParseFloatError> for TupleParseError {
    /// The error for a coordinate that is not a number, whatever was wrong
    /// with it.
    fn from(e: std::num::ParseFloatError) -> (r: TupleParseError)
        ensures
            r.kind == ParseErrorKind::InvalidNumber,
    {
        TupleParseError { kind: ParseErrorKind::InvalidNumber }
    }
}

impl vstd::std_specs::convert::FromSpecImpl<std::num::ParseFloatError> for TupleParseError {
    open spec fn obeys_from_spec() -> bool {
        true
    }

    open spec fn from_spec(e: std::num::ParseFloatError) -> TupleParseError {
        TupleParseError { kind: ParseErrorKind::InvalidNumber }
    }
}

} // verus!
