use ray_tuples::axis::Axis;
use ray_tuples::error::{ParseErrorKind, TupleParseError};
use ray_tuples::pattern::PatternFault;

fn error(kind: ParseErrorKind) -> TupleParseError {
    TupleParseError { kind }
}

#[test]
fn malformed_has_its_message() {
    assert_eq!(
        error(ParseErrorKind::MalformedFormat).message(),
        "invalid tuple format (#.#, #.#, #.#)"
    );
}

#[test]
fn missing_names_the_axis() {
    assert_eq!(error(ParseErrorKind::MissingField(Axis::X)).message(), "missing x value");
    assert_eq!(error(ParseErrorKind::MissingField(Axis::Y)).message(), "missing y value");
    assert_eq!(error(ParseErrorKind::MissingField(Axis::Z)).message(), "missing z value");
}

#[test]
fn a_float_error_becomes_an_invalid_number() {
    let e = TupleParseError::from("one".parse::<f64>().unwrap_err());
    assert_eq!(e, error(ParseErrorKind::InvalidNumber));
    assert_eq!(e.message(), "invalid numeric literal");
    let e = TupleParseError::from("".parse::<f64>().unwrap_err());
    assert_eq!(e.kind, ParseErrorKind::InvalidNumber);
}

#[test]
fn a_syntax_error_keeps_the_description_of_the_engine() {
    let refused = regex::Regex::new("(").unwrap_err();
    let description = match &refused {
        regex::Error::Syntax(description) => description.clone(),
        _ => panic!("an unclosed group is a syntax error"),
    };
    let e = TupleParseError::from(refused);
    assert_eq!(e.kind, ParseErrorKind::Pattern(PatternFault::Syntax(description.clone())));
    assert_eq!(e.message(), description);
    assert_ne!(e.message(), "(");
}

#[test]
fn an_oversized_pattern_is_reported_as_such() {
    let e = TupleParseError::from(regex::Error::CompiledTooBig(10));
    assert_eq!(e.kind, ParseErrorKind::Pattern(PatternFault::TooBig));
    assert_eq!(e.message(), "tuple pattern exceeds the size limit");
}

#[test]
fn each_fault_of_the_pattern_has_its_message() {
    let e = error(ParseErrorKind::Pattern(PatternFault::Syntax("unclosed group".to_string())));
    assert_eq!(e.message(), "unclosed group");
    let e = error(ParseErrorKind::Pattern(PatternFault::TooBig));
    assert_eq!(e.message(), "tuple pattern exceeds the size limit");
    let e = error(ParseErrorKind::Pattern(PatternFault::Other));
    assert_eq!(e.message(), "tuple pattern was refused");
}

#[test]
fn errors_compare_by_kind() {
    assert_eq!(error(ParseErrorKind::MalformedFormat), error(ParseErrorKind::MalformedFormat));
    assert_ne!(
        error(ParseErrorKind::MissingField(Axis::X)),
        error(ParseErrorKind::MissingField(Axis::Y))
    );
    assert_ne!(error(ParseErrorKind::MalformedFormat), error(ParseErrorKind::InvalidNumber));
}
