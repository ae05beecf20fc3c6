use opening_hours_py::ParserError;

#[test]
fn message_is_the_heading_and_the_diagnostic() {
    let error = ParserError::from(String::from(" --> 1:5\n  |\n1 | 24/77\n  |     ^---"));
    assert_eq!(
        error.message(),
        "could not parse expression:\n --> 1:5\n  |\n1 | 24/77\n  |     ^---"
    );
}

#[test]
fn message_of_an_empty_diagnostic_is_the_heading() {
    assert_eq!(ParserError::from(String::new()).message(), "could not parse expression:\n");
}

#[test]
fn diagnostic_is_kept_as_given() {
    let error = ParserError::from(String::from("expected rule at 1:5"));
    assert_eq!(error.diagnostic(), "expected rule at 1:5");
}

#[test]
fn diagnostic_keeps_text_that_is_not_ascii() {
    let error = ParserError::from(String::from("unerwartetes Zeichen \u{201e}\u{00e4}\u{201c}"));
    assert_eq!(error.diagnostic(), "unerwartetes Zeichen \u{201e}\u{00e4}\u{201c}");
    assert_eq!(
        error.message(),
        "could not parse expression:\nunerwartetes Zeichen \u{201e}\u{00e4}\u{201c}"
    );
}
