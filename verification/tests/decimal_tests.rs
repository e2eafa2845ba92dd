use vibevoicecli::decimal::{format_decimal, parse_bool, parse_u32, IntErrorKind};

#[test]
fn formats_like_to_string() {
    for n in [0u64, 7, 10, 42, 22050, 4294967295, u64::MAX].iter() {
        assert_eq!(format_decimal(*n), n.to_string());
    }
}

#[test]
fn parses_like_std() {
    assert_eq!(parse_u32("44100"), Ok(44100));
    assert_eq!(parse_u32("+16000"), Ok(16000));
    assert_eq!(parse_u32("007"), Ok(7));
    assert_eq!(parse_u32("4294967295"), Ok(u32::MAX));
    assert_eq!(parse_u32(""), Err(IntErrorKind::Empty));
    assert_eq!(parse_u32("+"), Err(IntErrorKind::InvalidDigit));
    assert_eq!(parse_u32("-"), Err(IntErrorKind::InvalidDigit));
    assert_eq!(parse_u32("-5"), Err(IntErrorKind::InvalidDigit));
    assert_eq!(parse_u32("12a"), Err(IntErrorKind::InvalidDigit));
    assert_eq!(parse_u32("4294967296"), Err(IntErrorKind::PosOverflow));
    assert_eq!(parse_u32("99999999999x"), Err(IntErrorKind::PosOverflow));
}

#[test]
fn parse_agrees_with_std_on_samples() {
    for s in ["0", "1", "+0", "00000000000000000001", "4294967296", "abc", " 1", "1 ", "++1", "٣"].iter() {
        let ours = parse_u32(s);
        let std = s.parse::<u32>();
        match (ours, std) {
            (Ok(a), Ok(b)) => assert_eq!(a, b),
            (Err(_), Err(_)) => {}
            (a, b) => panic!("mismatch on {:?}: {:?} {:?}", s, a, b),
        }
    }
}

#[test]
fn decimal_round_trip() {
    for n in [0u32, 1, 9, 10, 99, 100, 22050, 48000, u32::MAX].iter() {
        assert_eq!(parse_u32(&format_decimal(*n as u64)), Ok(*n));
    }
}

#[test]
fn error_messages_match_std() {
    assert_eq!(IntErrorKind::Empty.message(), "".parse::<u32>().unwrap_err().to_string());
    assert_eq!(IntErrorKind::InvalidDigit.message(), "x".parse::<u32>().unwrap_err().to_string());
    assert_eq!(
        IntErrorKind::PosOverflow.message(),
        "4294967296".parse::<u32>().unwrap_err().to_string()
    );
}

#[test]
fn parses_bools() {
    assert_eq!(parse_bool("true"), Some(true));
    assert_eq!(parse_bool("false"), Some(false));
    assert_eq!(parse_bool("True"), None);
    assert_eq!(parse_bool("1"), None);
    assert_eq!(parse_bool(""), None);
}
