use radio_sweep::color::{hex_byte, hex_digit, Color, ColorError};

#[test]
fn color_from_lower_case_digits() {
    assert_eq!(Color::try_from("ff8000"), Ok(Color { r: 255, g: 128, b: 0 }));
    assert_eq!(Color::try_from("000000"), Ok(Color { r: 0, g: 0, b: 0 }));
    assert_eq!(Color::try_from("0a0b0c"), Ok(Color { r: 10, g: 11, b: 12 }));
}

#[test]
fn color_from_upper_and_mixed_case_digits() {
    assert_eq!(Color::try_from("FFFFFF"), Ok(Color { r: 255, g: 255, b: 255 }));
    assert_eq!(Color::try_from("AbCdEf"), Ok(Color { r: 0xab, g: 0xcd, b: 0xef }));
    assert_eq!(Color::try_from("1234Fe"), Ok(Color { r: 0x12, g: 0x34, b: 0xfe }));
}

#[test]
fn color_of_wrong_length_is_refused() {
    assert_eq!(Color::try_from(""), Err(ColorError::Length));
    assert_eq!(Color::try_from("fff"), Err(ColorError::Length));
    assert_eq!(Color::try_from("ff800"), Err(ColorError::Length));
    assert_eq!(Color::try_from("ff80000"), Err(ColorError::Length));
    assert_eq!(Color::try_from("#ff8000"), Err(ColorError::Length));
}

#[test]
fn color_with_a_bad_digit_is_refused() {
    assert_eq!(Color::try_from("gg0000"), Err(ColorError::Digit));
    assert_eq!(Color::try_from("00zz00"), Err(ColorError::Digit));
    assert_eq!(Color::try_from("0000 1"), Err(ColorError::Digit));
    assert_eq!(Color::try_from("+f0000"), Err(ColorError::Digit));
    assert_eq!(Color::try_from("-10000"), Err(ColorError::Digit));
    assert_eq!(Color::try_from("0x1234"), Err(ColorError::Digit));
    assert_eq!(Color::try_from("ab\u{e9}cd"), Err(ColorError::Digit));
}

#[test]
fn color_from_bytes() {
    assert_eq!(Color::from_hex(b"10ff7f"), Ok(Color { r: 16, g: 255, b: 127 }));
    assert_eq!(Color::from_hex(&[0xff, 0x30, 0x30, 0x30, 0x30, 0x30]), Err(ColorError::Digit));
    assert_eq!(Color::from_hex(b"12345"), Err(ColorError::Length));
}

#[test]
fn every_byte_value_is_read_back() {
    let digits = b"0123456789abcdef";
    for value in 0..=255u8 {
        let pair = [digits[(value >> 4) as usize], digits[(value & 15) as usize]];
        assert_eq!(hex_byte(pair[0], pair[1]), Some(value));
        let text = [pair[0], pair[1], b'0', b'0', pair[0], pair[1]];
        assert_eq!(Color::from_hex(&text), Ok(Color { r: value, g: 0, b: value }));
    }
}

#[test]
fn hex_digits_and_other_bytes() {
    for byte in 0..=255u8 {
        let expected = (byte as char).to_digit(16).map(|d| d as u8);
        assert_eq!(hex_digit(byte), expected);
    }
    assert_eq!(hex_digit(b'0'), Some(0));
    assert_eq!(hex_digit(b'9'), Some(9));
    assert_eq!(hex_digit(b'a'), Some(10));
    assert_eq!(hex_digit(b'F'), Some(15));
    assert_eq!(hex_digit(b'g'), None);
    assert_eq!(hex_digit(b'/'), None);
    assert_eq!(hex_digit(b':'), None);
    assert_eq!(hex_digit(b'@'), None);
    assert_eq!(hex_digit(b'`'), None);
}
