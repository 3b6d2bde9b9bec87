use ws_app::decimal::{append_ascii, decimal_i64, parse_i64, IntErrorKind};

#[test]
fn parses_plain_and_signed_numbers() {
    assert_eq!(parse_i64(b"0"), Ok(0));
    assert_eq!(parse_i64(b"42"), Ok(42));
    assert_eq!(parse_i64(b"+42"), Ok(42));
    assert_eq!(parse_i64(b"-42"), Ok(-42));
    assert_eq!(parse_i64(b"007"), Ok(7));
    assert_eq!(parse_i64(b"-0"), Ok(0));
}

#[test]
fn parses_the_extremes() {
    assert_eq!(parse_i64(b"9223372036854775807"), Ok(i64::MAX));
    assert_eq!(parse_i64(b"-9223372036854775808"), Ok(i64::MIN));
}

#[test]
fn refuses_empty_text() {
    assert_eq!(parse_i64(b""), Err(IntErrorKind::Empty));
}

#[test]
fn refuses_lone_signs_and_other_bytes() {
    assert_eq!(parse_i64(b"+"), Err(IntErrorKind::InvalidDigit));
    assert_eq!(parse_i64(b"-"), Err(IntErrorKind::InvalidDigit));
    assert_eq!(parse_i64(b"12a"), Err(IntErrorKind::InvalidDigit));
    assert_eq!(parse_i64(b" 12"), Err(IntErrorKind::InvalidDigit));
    assert_eq!(parse_i64(b"1_000"), Err(IntErrorKind::InvalidDigit));
    assert_eq!(parse_i64(b"--1"), Err(IntErrorKind::InvalidDigit));
}

#[test]
fn refuses_values_out_of_range() {
    assert_eq!(parse_i64(b"9223372036854775808"), Err(IntErrorKind::PosOverflow));
    assert_eq!(parse_i64(b"-9223372036854775809"), Err(IntErrorKind::NegOverflow));
    // The first failure from the left decides.
    assert_eq!(parse_i64(b"99999999999999999999x"), Err(IntErrorKind::PosOverflow));
    assert_eq!(parse_i64(b"12x99999999999999999999"), Err(IntErrorKind::InvalidDigit));
}

#[test]
fn agrees_with_std_parse() {
    let samples: [&str; 12] = [
        "", "+", "-", "0", "-0", "+7", "123", "-123", "9223372036854775807",
        "9223372036854775808", "-9223372036854775809", "12a",
    ];
    for s in samples.iter() {
        let ours = parse_i64(s.as_bytes()).ok();
        let theirs = s.parse::<i64>().ok();
        assert_eq!(ours, theirs, "text {:?}", s);
    }
}

#[test]
fn formats_like_to_string() {
    let samples: [i64; 8] = [0, 7, -7, 10, -100, 1234567890, i64::MAX, i64::MIN];
    for n in samples.iter() {
        let mut text = String::from("id=");
        append_ascii(&mut text, &decimal_i64(*n));
        assert_eq!(text, format!("id={}", n));
        assert_eq!(decimal_i64(*n), n.to_string().into_bytes());
    }
}

#[test]
fn format_then_parse_gives_the_number_back() {
    let samples: [i64; 7] = [0, 1, -1, 99, -4096, i64::MAX, i64::MIN];
    for n in samples.iter() {
        assert_eq!(parse_i64(&decimal_i64(*n)), Ok(*n));
    }
}
