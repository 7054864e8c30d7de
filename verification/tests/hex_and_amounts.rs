use mobilecoind_json::{amount_error_message, decode_hex, hex_error_message, parse_amount, AmountError, HexError};

#[test]
fn decode_hex_gives_the_bytes() {
    assert_eq!(decode_hex("48656c6c6f"), Ok(b"Hello".to_vec()));
    assert_eq!(decode_hex("DEADbeef"), Ok(vec![0xde, 0xad, 0xbe, 0xef]));
    assert_eq!(decode_hex(""), Ok(vec![]));
}

#[test]
fn decode_hex_refuses_odd_length_first() {
    assert_eq!(decode_hex("123"), Err(HexError::OddLength));
    assert_eq!(decode_hex("zzz"), Err(HexError::OddLength));
}

#[test]
fn decode_hex_reports_the_first_invalid_byte() {
    assert_eq!(decode_hex("12g4"), Err(HexError::InvalidHexCharacter { c: 'g', index: 2 }));
    assert_eq!(decode_hex("1 x4"), Err(HexError::InvalidHexCharacter { c: ' ', index: 1 }));
    // A non-ASCII character is reported by its first UTF-8 byte.
    assert_eq!(decode_hex("é"), Err(HexError::InvalidHexCharacter { c: 0xc3u8 as char, index: 0 }));
}

#[test]
fn hex_error_messages() {
    assert_eq!(hex_error_message(HexError::OddLength), "Odd number of digits");
    assert_eq!(hex_error_message(HexError::InvalidStringLength), "Invalid string length");
    assert_eq!(
        hex_error_message(HexError::InvalidHexCharacter { c: 'g', index: 3 }),
        "Invalid character 'g' at position 3"
    );
    assert_eq!(
        hex_error_message(HexError::InvalidHexCharacter { c: 'Z', index: 12345 }),
        "Invalid character 'Z' at position 12345"
    );
    assert_eq!(
        hex_error_message(HexError::InvalidHexCharacter { c: '\n', index: 5 }),
        "Invalid character '\\n' at position 5"
    );
}

#[test]
fn hex_round_trip_law_on_examples() {
    let samples: Vec<Vec<u8>> = vec![vec![], vec![0], vec![0xff, 0x00, 0x7f], (0u8..=255).collect()];
    for bytes in samples {
        assert_eq!(decode_hex(&hex::encode(&bytes)), Ok(bytes.clone()));
        assert_eq!(decode_hex(&hex::encode_upper(&bytes)), Ok(bytes));
    }
}

#[test]
fn parse_amount_examples() {
    assert_eq!(parse_amount("0"), Ok(0));
    assert_eq!(parse_amount("1000"), Ok(1000));
    assert_eq!(parse_amount("+7"), Ok(7));
    assert_eq!(parse_amount("007"), Ok(7));
    assert_eq!(parse_amount("18446744073709551615"), Ok(u64::MAX));
    assert_eq!(parse_amount(""), Err(AmountError::Empty));
    assert_eq!(parse_amount("+"), Err(AmountError::InvalidDigit));
    assert_eq!(parse_amount("-"), Err(AmountError::InvalidDigit));
    assert_eq!(parse_amount("-1"), Err(AmountError::InvalidDigit));
    assert_eq!(parse_amount("1.5"), Err(AmountError::InvalidDigit));
    assert_eq!(parse_amount(" 1"), Err(AmountError::InvalidDigit));
    assert_eq!(parse_amount("18446744073709551616"), Err(AmountError::PosOverflow));
    // Overflow is found before a later bad byte.
    assert_eq!(parse_amount("99999999999999999999x"), Err(AmountError::PosOverflow));
    assert_eq!(parse_amount("x99999999999999999999"), Err(AmountError::InvalidDigit));
}

#[test]
fn parse_amount_agrees_with_std() {
    let inputs = [
        "", "+", "-", "0", "+0", "-0", "42", "+42", "++1", "1+", "12a", "a12", "١٢", "１",
        "18446744073709551615", "18446744073709551616", "+18446744073709551615",
        "000000000000000000000000018446744073709551615", "184467440737095516150",
        "99999999999999999999x", " 5", "5 ",
    ];
    for text in inputs.iter() {
        let ours = parse_amount(text);
        let std = text.parse::<u64>();
        match (&ours, &std) {
            (Ok(a), Ok(b)) => assert_eq!(a, b, "{:?}", text),
            (Err(e), Err(s)) => assert_eq!(amount_error_message(*e), s.to_string(), "{:?}", text),
            _ => panic!("disagreement on {:?}: {:?} vs {:?}", text, ours, std),
        }
    }
}

#[test]
fn amount_round_trip_law_on_examples() {
    for v in [0u64, 1, 9, 10, 99, 100, 123456789, u64::MAX - 1, u64::MAX] {
        assert_eq!(parse_amount(&v.to_string()), Ok(v));
    }
}

#[test]
fn amount_error_messages() {
    assert_eq!(amount_error_message(AmountError::Empty), "cannot parse integer from empty string");
    assert_eq!(amount_error_message(AmountError::InvalidDigit), "invalid digit found in string");
    assert_eq!(amount_error_message(AmountError::PosOverflow), "number too large to fit in target type");
}
