//! Locating a tuple in a text.
//!
//! A tuple is written `(x,y,z)`, each coordinate a run of digits, optionally
//! followed by a point and more digits. No sign is accepted. The tuple may
//! stand anywhere in the text; the leftmost one is taken.

use vstd::prelude::*;
use crate::axis::Axis;
use crate::error::{ParseErrorKind, TupleParseError};
use crate::pattern::{first_match, groups_of, refusal_of};

verus! {

/// The tuple format as a regular expression with one named group for each
/// coordinate.
pub const TUPLE_PATTERN: &'static str =
    r"\((?P<x>\d+\.?\d*),(?P<y>\d+\.?\d*),(?P<z>\d+\.?\d*)\)";

/// The coordinate literals of one tuple, as they stand in the text. A
/// coordinate that took no part in the match is absent.
#[derive(Clone, Debug, PartialEq, Eq)]
pub struct TupleText {
    pub x: Option<String>,
    pub y: Option<String>,
    pub z: Option<String>,
}

/// An optional literal as a mathematical value.
pub open spec fn text_view(literal: Option<String>) -> Option<Seq<char>> {
    match literal {
        Some(s) => Some(s@),
        None => None,
    }
}

/// The text that the group of `axis` matched, if the group took part.
pub open spec fn group_text(groups: Map<Seq<char>, Seq<char>>, axis: Axis) -> Option<Seq<char>> {
    if groups.contains_key(axis.group()) {
        Some(groups[axis.group()])
    } else {
        None
    }
}

/// What a search for a tuple in `text` finds: the named groups of the
/// leftmost tuple, or `None` where the text holds no tuple. The search is that
/// of an expression which the engine built from the pattern of the format
/// with its default configuration.
pub open spec fn tuple_in(text: Seq<char>) -> Option<Map<Seq<char>, Seq<char>>> {
    first_match(TUPLE_PATTERN@, text)
}

impl TupleText {
    /// The literal of the coordinate `axis`, if it is present.
    pub open spec fn literal(&self, axis: Axis) -> Option<Seq<char>> {
        match axis {
            Axis::X => text_view(self.x),
            Axis::Y => text_view(self.y),
            Axis::Z => text_view(self.z),
        }
    }

    /// Whether this tuple holds what the groups of a match hold: each
    /// coordinate is the text of its group, and absent where the group is.
    pub open spec fn holds(&self, groups: Map<Seq<char>, Seq<char>>) -> bool {
        forall|axis: Axis| self.literal(axis) == group_text(groups, axis)
    }

    /// The literal of the coordinate `axis`, or the error that names the
    /// coordinate where it is absent.
    pub fn coordinate(&self, axis: Axis) -> (r: Result<&str, TupleParseError>)
        ensures
            match r {
                Ok(literal) => self.literal(axis) == Some(literal@),
                Err(e) => self.literal(axis) is None && e == (TupleParseError {
                    kind: ParseErrorKind::MissingField(axis),
                }),
            },
    {
        let literal = match axis {
            Axis::X => &self.x,
            Axis::Y => &self.y,
            Axis::Z => &self.z,
        };
        match literal {
            Some(s) => Ok(s.as_str()),
            None => Err(TupleParseError { kind: ParseErrorKind::MissingField(axis) }),
        }
    }

    /// What a search that ended in `found` comes to: the tuple, or the error
    /// for a text that holds none.
    pub fn from_search(found: Option<TupleText>) -> (r: Result<TupleText, TupleParseError>)
        ensures
            match found {
                Some(t) => r == Ok::<TupleText, TupleParseError>(t),
                None => r == Err::<TupleText, TupleParseError>(
                    TupleParseError { kind: ParseErrorKind::MalformedFormat },
                ),
            },
    {
        match found {
            Some(t) => Ok(t),
            None => Err(TupleParseError { kind: ParseErrorKind::MalformedFormat }),
        }
    }

    /// The text that the group of `axis` matched, if the group took part.
    fn literal_of<'h>(caps: &regex::Captures<'h>, axis: Axis) -> (literal: Option<String>)
        ensures
            text_view(literal) == group_text(groups_of(*caps), axis),
    {
        match caps.name(axis.group_name()) {
            Some(m) => Some(m.as_str().to_owned()),
            None => None,
        }
    }

    /// Reads the leftmost tuple in `text`.
    ///
    /// Where the engine accepts the pattern of the format, the result is the
    /// tuple that the search finds, and `MalformedFormat` where it finds
    /// none. Where the engine refuses the pattern, the result is the `Pattern`
    /// error with the engine's fault, whatever the text.
    pub fn parse(text: &str) -> (r: Result<TupleText, TupleParseError>)
        ensures
            match refusal_of(TUPLE_PATTERN@) {
                Some(fault) => r == Err::<TupleText, TupleParseError>(
                    TupleParseError { kind: ParseErrorKind::Pattern(fault) },
                ),
                None => match r {
                    Ok(t) => tuple_in(text@) is Some && t.holds(tuple_in(text@)->0),
                    Err(e) => tuple_in(text@) is None && e.kind == ParseErrorKind::MalformedFormat,
                },
            },
    {
        let re = match regex::Regex::new(TUPLE_PATTERN) {
            Ok(re) => re,
            Err(e) => {
                return Err(TupleParseError::from(e));
            },
        };
        let found = match re.captures(text) {
            Some(caps) => Some(
                TupleText {
                    x: TupleText::literal_of(&caps, Axis::X),
                    y: TupleText::literal_of(&caps, Axis::Y),
                    z: TupleText::literal_of(&caps, Axis::Z),
                },
            ),
            None => None,
        };
        TupleText::from_search(found)
    }
}

} // verus!
