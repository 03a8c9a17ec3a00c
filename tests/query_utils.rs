use chessmate::query::{parse_attrs, parse_query, ParseAttrsErr, ParseQueryError};

#[test]
fn good_pattern() {
    assert_eq!(parse_query("some?str"), Ok(("some", "str")))
}

#[test]
fn not_a_query() {
    assert_eq!(parse_query("somestr"), Err(ParseQueryError::InvalidFormat))
}

#[test]
fn empty_query() {
    assert_eq!(parse_query("?somestr"), Err(ParseQueryError::EmptyQuery))
}

#[test]
fn empty_attrs() {
    assert_eq!(parse_query("?somestr"), Err(ParseQueryError::EmptyQuery))
}

#[test]
fn query_without_attrs() {
    assert_eq!(parse_query("/find?"), Err(ParseQueryError::EmptyAttrs))
}

#[test]
fn query_splits_at_first_mark() {
    assert_eq!(parse_query("/a?b?c"), Ok(("/a", "b?c")))
}

#[test]
fn attrs_two_parts() {
    assert_eq!(parse_attrs("1:move:0,0", ':', 2), Ok(vec!["1", "move:0,0"]));
}

#[test]
fn attrs_without_pattern() {
    assert_eq!(parse_attrs("surrender", ':', 2), Err(ParseAttrsErr::InvalidFormat));
}

#[test]
fn attrs_too_little() {
    assert_eq!(parse_attrs("a:b", ':', 3), Err(ParseAttrsErr::TooLittle));
}

#[test]
fn attrs_three_parts() {
    assert_eq!(parse_attrs("a:b:c:d", ':', 3), Ok(vec!["a", "b", "c:d"]));
}

#[test]
fn attrs_empty_pieces() {
    assert_eq!(parse_attrs(":", ':', 2), Ok(vec!["", ""]));
}
