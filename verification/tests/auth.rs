use ws_app::auth::{parse_token, TokenError};
use ws_app::decimal::{decimal_i64, IntErrorKind};

fn header(bytes: &[u8]) -> Option<&[u8]> {
    Some(bytes)
}

#[test]
fn missing_header_is_refused() {
    assert_eq!(parse_token(None), Err(TokenError::MissingHeader));
}

#[test]
fn header_with_a_user_id_gives_it() {
    assert_eq!(parse_token(header(b"17")), Ok(17));
    assert_eq!(parse_token(header(b"-3")), Ok(-3));
}

#[test]
fn header_that_is_not_text_is_refused() {
    assert_eq!(parse_token(header(&[49u8, 200u8])), Err(TokenError::NotVisibleAscii));
    assert_eq!(parse_token(header(&[49u8, 127u8])), Err(TokenError::NotVisibleAscii));
    assert_eq!(parse_token(header(&[49u8, 10u8])), Err(TokenError::NotVisibleAscii));
}

#[test]
fn header_text_that_is_not_a_number_is_refused() {
    assert_eq!(parse_token(header(b"")), Err(TokenError::Parse(IntErrorKind::Empty)));
    assert_eq!(parse_token(header(b"Bearer 1")), Err(TokenError::Parse(IntErrorKind::InvalidDigit)));
    // A tab is text, but not a digit.
    assert_eq!(parse_token(header(b"1\t")), Err(TokenError::Parse(IntErrorKind::InvalidDigit)));
    assert_eq!(
        parse_token(header(b"99999999999999999999")),
        Err(TokenError::Parse(IntErrorKind::PosOverflow))
    );
}

#[test]
fn decimal_text_of_any_id_is_its_token() {
    for n in [0i64, 5, -5, i64::MAX, i64::MIN].iter() {
        assert_eq!(parse_token(header(&decimal_i64(*n))), Ok(*n));
    }
}
