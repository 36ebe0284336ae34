//! The regular-expression engine that recognises the tuple format.
//!
//! Nothing in this module is proved. It declares the types of the `regex`
//! crate that the library handles, gives names to what the engine computes,
//! and states over those names what each of its functions returns. The rest
//! of the library is verified against these statements.

use vstd::prelude::*;

verus! {

/// `regex::Regex`, a compiled regular expression.
#[verifier::external_type_specification]
#[verifier::external_body]
pub struct ExRegex(regex::Regex);

/// `regex::Captures`, the capture groups of one match.
#[verifier::external_type_specification]
#[verifier::external_body]
pub struct ExCaptures<'h>(regex::Captures<'h>);

/// `regex::Match`, one matched part of a haystack.
#[verifier::external_type_specification]
#[verifier::external_body]
pub struct ExMatch<'h>(regex::Match<'h>);

/// `regex::Error`, the reason for which a pattern was refused.
#[verifier::external_type_specification]
#[verifier::external_body]
pub struct ExError(regex::Error);

/// How `regex::Regex::new` answers `pattern` on the target that the library is
/// built for: `None` where it accepts the pattern, else the fault of the error
/// that it returns.
pub uninterp spec fn refusal_of(pattern: Seq<char>) -> Option<PatternFault>;

/// The text of the pattern that a compiled expression was built from, which
/// it keeps. How the expression searches depends on that text and on the
/// configuration that it was built with.
pub uninterp spec fn pattern_of(re: regex::Regex) -> Seq<char>;

/// Whether a compiled expression was built with the configuration that
/// `regex::Regex::new` uses. An expression from a builder with other settings
/// keeps the same pattern text and may search differently.
pub uninterp spec fn plainly_built(re: regex::Regex) -> bool;

/// What `regex::Regex::captures` finds when an expression that
/// `regex::Regex::new` built from `pattern` searches `haystack`: `None` where
/// nothing matches, else the named groups that took part in the leftmost
/// match, each group's name with the text it matched.
pub uninterp spec fn first_match(pattern: Seq<char>, haystack: Seq<char>) -> Option<
    Map<Seq<char>, Seq<char>>,
>;

/// The named groups that took part in one match, each group's name with the
/// text it matched.
pub uninterp spec fn groups_of(caps: regex::Captures<'_>) -> Map<Seq<char>, Seq<char>>;

/// The part of the haystack that one match covers.
pub uninterp spec fn text_of(m: regex::Match<'_>) -> Seq<char>;

/// The fault that an error of the engine stands for.
pub uninterp spec fn fault_of(e: regex::Error) -> PatternFault;

/// Why the engine refused a pattern.
#[derive(Clone, Debug, PartialEq, Eq)]
pub enum PatternFault {
    /// The pattern is not a regular expression; the engine's description.
    Syntax(String),
    /// The compiled pattern would exceed the engine's size limit.
    TooBig,
    /// Any other refusal.
    Other,
}

/// `regex::Regex::new` compiles a pattern with the engine's default
/// configuration. Whether it succeeds, and with which fault it fails, depends
/// on the pattern alone. The expression it returns keeps the pattern's text
/// and is plainly built.
pub assume_specification[ regex::Regex::new ](re: &str) -> (r: Result<regex::Regex, regex::Error>)
    ensures
        match r {
            Ok(compiled) => refusal_of(re@) is None && pattern_of(compiled) == re@ && plainly_built(
                compiled,
            ),
            Err(e) => refusal_of(re@) == Some(fault_of(e)),
        },
;

/// `regex::Regex::captures` searches a haystack for the leftmost match. For a
/// plainly built expression, what it finds depends on the pattern's text and
/// the haystack alone: it returns `None` exactly where nothing matches, and
/// else the groups of that match. Nothing is claimed of an expression that was
/// built with other settings.
pub assume_specification<'h>[ regex::Regex::captures ](
    re: &regex::Regex,
    haystack: &'h str,
) -> (r: Option<regex::Captures<'h>>)
    ensures
        plainly_built(*re) ==> match r {
            Some(caps) => first_match(pattern_of(*re), haystack@) == Some(groups_of(caps)),
            None => first_match(pattern_of(*re), haystack@) is None,
        },
;

/// `regex::Captures::name` looks a group up by its name. It returns the
/// group's match where a group of that name took part, and `None` where the
/// pattern has no such group or the group took no part.
pub assume_specification<'h>[ regex::Captures::<'h>::name ](
    caps: &regex::Captures<'h>,
    name: &str,
) -> (r: Option<regex::Match<'h>>)
    ensures
        match r {
            Some(m) => groups_of(*caps).contains_key(name@) && groups_of(*caps)[name@] == text_of(
                m,
            ),
            None => !groups_of(*caps).contains_key(name@),
        },
;

/// `regex::Match::as_str` returns the part of the haystack that the match
/// covers.
pub assume_specification<'h>[ regex::Match::<'h>::as_str ](m: &regex::Match<'h>) -> (r: &'h str)
    ensures
        r@ == text_of(*m),
;

/// Tells the variants of `regex::Error` apart: a syntax error hands over its
/// description, the size limit of an oversized pattern is dropped, and any
/// other variant is `Other`. The result depends on the error alone.
#[verifier::external_body]
pub(crate) fn pattern_fault(e: regex::Error) -> (fault: PatternFault)
    ensures
        fault == fault_of(e),
{
    match e {
        regex::Error::Syntax(description) => PatternFault::Syntax(description),
        regex::Error::CompiledTooBig(_) => PatternFault::TooBig,
        _ => PatternFault::Other,
    }
}

} // verus!
