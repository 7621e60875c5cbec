use base64::Engine;
use imgconvert::b64::{decode_base64, encode_base64};
use imgconvert::number::{parse_i32, parse_u32, parse_u8, push_decimal, IntError};
use imgconvert::text::hex_preview;
use imgconvert::trim::trimmed;

#[test]
fn trim_removes_ascii_whitespace() {
    assert_eq!(trimmed(b"  photo.jpg\t\n"), b"photo.jpg".to_vec());
    assert_eq!(trimmed(b"   "), Vec::<u8>::new());
    assert_eq!(trimmed(b""), Vec::<u8>::new());
    assert_eq!(trimmed(b"a b"), b"a b".to_vec());
}

#[test]
fn trim_removes_unicode_whitespace() {
    let s = "\u{00a0}\u{2003}x\u{3000}\u{0085}";
    assert_eq!(trimmed(s.as_bytes()), s.trim().as_bytes().to_vec());
    let t = "\u{1680}\u{202f}-image-stdin\u{205f}\u{2029}";
    assert_eq!(trimmed(t.as_bytes()), b"-image-stdin".to_vec());
    let u = "\u{00e9}t\u{00e9}";
    assert_eq!(trimmed(u.as_bytes()), u.as_bytes().to_vec());
}

#[test]
fn trim_twice_is_trim_once() {
    let s = " \u{2000} a\u{00a0}b \u{3000}";
    let once = trimmed(s.as_bytes());
    assert_eq!(trimmed(&once), once);
}

#[test]
fn parse_u32_like_std() {
    for s in ["0", "42", "+7", "4294967295", "4294967296", "", "+", "-", "-1", "12a", "99999999999x", " 1"] {
        let ours = parse_u32(s.as_bytes());
        match s.parse::<u32>() {
            Ok(v) => assert_eq!(ours, Ok(v), "{}", s),
            Err(_) => assert!(ours.is_err(), "{}", s),
        }
    }
    assert_eq!(parse_u32(b""), Err(IntError::Empty));
    assert_eq!(parse_u32(b"-1"), Err(IntError::InvalidDigit));
    assert_eq!(parse_u32(b"4294967296"), Err(IntError::PosOverflow));
    assert_eq!(parse_u32(b"99999999999x"), Err(IntError::PosOverflow));
    assert_eq!(parse_u32(b"12a"), Err(IntError::InvalidDigit));
}

#[test]
fn parse_u8_and_i32_like_std() {
    assert_eq!(parse_u8(b"255"), Ok(255));
    assert_eq!(parse_u8(b"256"), Err(IntError::PosOverflow));
    assert_eq!(parse_u8(b"+3"), Ok(3));
    assert_eq!(parse_i32(b"-2147483648"), Ok(i32::MIN));
    assert_eq!(parse_i32(b"-2147483649"), Err(IntError::NegOverflow));
    assert_eq!(parse_i32(b"2147483647"), Ok(i32::MAX));
    assert_eq!(parse_i32(b"2147483648"), Err(IntError::PosOverflow));
    assert_eq!(parse_i32(b"-"), Err(IntError::InvalidDigit));
    assert_eq!(parse_i32(b"6"), Ok(6));
}

#[test]
fn int_error_messages_match_std() {
    assert_eq!(IntError::Empty.message(), "".parse::<u32>().unwrap_err().to_string().into_bytes());
    assert_eq!(IntError::InvalidDigit.message(), "x".parse::<u32>().unwrap_err().to_string().into_bytes());
    assert_eq!(IntError::PosOverflow.message(), "4294967296".parse::<u32>().unwrap_err().to_string().into_bytes());
    assert_eq!(IntError::NegOverflow.message(), "-2147483649".parse::<i32>().unwrap_err().to_string().into_bytes());
    assert_eq!(IntError::InvalidDigit.kind_name(), b"InvalidDigit".to_vec());
}

#[test]
fn decimal_digits() {
    let mut out = b"x=".to_vec();
    push_decimal(&mut out, 4000);
    assert_eq!(out, b"x=4000".to_vec());
    let mut zero = Vec::new();
    push_decimal(&mut zero, 0);
    assert_eq!(zero, b"0".to_vec());
    let mut max = Vec::new();
    push_decimal(&mut max, u32::MAX);
    assert_eq!(parse_u32(&max), Ok(u32::MAX));
}

#[test]
fn base64_encodes_with_padding() {
    assert_eq!(encode_base64(b"hello"), b"aGVsbG8=".to_vec());
    assert_eq!(encode_base64(b"hell"), b"aGVsbA==".to_vec());
    assert_eq!(encode_base64(b"hel"), b"aGVs".to_vec());
    assert_eq!(encode_base64(b""), Vec::<u8>::new());
    assert_eq!(encode_base64(&[0xfb, 0xff]), b"+/8=".to_vec());
}

#[test]
fn base64_decodes_canonical_text_only() {
    assert_eq!(decode_base64(b"aGVsbG8=").unwrap(), b"hello".to_vec());
    assert_eq!(decode_base64(b"aGVs").unwrap(), b"hel".to_vec());
    assert!(decode_base64(b"aGVsbG8").is_err());
    assert!(decode_base64(b"aGVsbA=").is_err());
    assert!(decode_base64(b"AB==").is_err());
    assert!(decode_base64(b"a!==").is_err());
}

#[test]
fn base64_round_trip() {
    let data: Vec<u8> = (0..=255u8).collect();
    assert_eq!(decode_base64(&encode_base64(&data)).unwrap(), data);
}

#[test]
fn hex_preview_of_short_data() {
    assert_eq!(hex_preview(&[0x00, 0xab, 0x0f, 0xff]), b"00ab0fff".to_vec());
    assert_eq!(hex_preview(&[]), Vec::<u8>::new());
}

#[test]
fn hex_preview_stops_after_100_bytes() {
    let data = vec![0x1fu8; 150];
    let shown = hex_preview(&data);
    assert_eq!(shown.len(), 200);
    assert_eq!(&shown[0..4], b"1f1f");
}

#[test]
fn base64_error_texts() {
    for t in [&b"aGVsbG8"[..], &b"aGVsbA="[..], &b"AB=="[..], &b"a!=="[..]] {
        let expected = format!("{:?}", base64::engine::general_purpose::STANDARD.decode(t).unwrap_err());
        assert_eq!(decode_base64(t).unwrap_err(), expected);
    }
    assert_eq!(decode_base64(b"a!==").unwrap_err(), "InvalidByte(1, 33)");
}
