use blockchain::block::{BlockData, Timestamp};
use blockchain::encoding::{push_decimal, push_signed_decimal};

fn decimal_bytes(n: u64) -> Vec<u8> {
    let mut out = Vec::new();
    push_decimal(&mut out, n);
    out
}
use blockchain::hash::HashParseError;

fn zero_hash() -> blockchain::hash::Hash {
    blockchain::hash::Hash::default()
}

#[test]
fn decimal_text_of_unsigned_integers() {
    assert_eq!(decimal_bytes(0), b"0".to_vec());
    assert_eq!(decimal_bytes(7), b"7".to_vec());
    assert_eq!(decimal_bytes(120), b"120".to_vec());
    assert_eq!(decimal_bytes(u64::MAX), b"18446744073709551615".to_vec());
}

#[test]
fn decimal_text_of_signed_integers() {
    let mut out = b"x".to_vec();
    push_signed_decimal(&mut out, -5);
    assert_eq!(out, b"x-5".to_vec());
    let mut out = Vec::new();
    push_signed_decimal(&mut out, i64::MIN);
    assert_eq!(out, b"-9223372036854775808".to_vec());
    let mut out = Vec::new();
    push_signed_decimal(&mut out, 1700000000);
    assert_eq!(out, b"1700000000".to_vec());
}

#[test]
fn default_hash_is_all_zero() {
    let h = zero_hash();
    assert_eq!(h.as_bytes(), &[0u8; 32]);
    assert_eq!(h.to_hex(), "0".repeat(64));
}

#[test]
fn hex_form_reads_back() {
    let mut bytes = [0u8; 32];
    for (i, b) in bytes.iter_mut().enumerate() {
        *b = (i as u8).wrapping_mul(37).wrapping_add(5);
    }
    let h = blockchain::hash::Hash { bytes };
    let text = h.to_hex();
    assert_eq!(&text[0..6], "052a4f");
    let back = blockchain::hash::Hash::from_hex(text.as_bytes()).unwrap();
    assert!(back == h);
}

#[test]
fn hex_form_of_wrong_length_is_refused() {
    let r = blockchain::hash::Hash::from_hex(b"abcd");
    assert_eq!(r.unwrap_err(), HashParseError::InvalidLength(4));
    let long = "0".repeat(65);
    let r = blockchain::hash::Hash::from_hex(long.as_bytes());
    assert_eq!(r.unwrap_err(), HashParseError::InvalidLength(65));
}

#[test]
fn hex_form_with_bad_symbol_is_refused_at_its_first_position() {
    let mut text = "0".repeat(64).into_bytes();
    text[10] = b'A';
    text[20] = b'g';
    let r = blockchain::hash::Hash::from_hex(&text);
    assert_eq!(r.unwrap_err(), HashParseError::InvalidSymbol(10));
}

#[test]
fn hashes_compare_by_bytes() {
    let a = zero_hash();
    let mut bytes = [0u8; 32];
    bytes[31] = 1;
    let b = blockchain::hash::Hash { bytes };
    assert!(a == zero_hash());
    assert!(!(a == b));
}

#[test]
fn json_form_of_text_data() {
    let data = BlockData::Text("a\"b".to_string());
    assert_eq!(data.json_bytes(), b"\"a\\\"b\"".to_vec());
}

#[test]
fn block_hash_is_sha256_of_its_fields() {
    let h = blockchain::hash::Hash::new(
        0,
        &zero_hash(),
        &Timestamp { secs: 1700000000, nanos: 0 },
        &BlockData::Text("genesis".to_string()),
    );
    assert_eq!(h.to_hex(), "0f47995462c7d25e636295ba9071c6f01e1f07d524926dc4f09f70b599b555ae");
    let h = blockchain::hash::Hash::new(
        7,
        &zero_hash(),
        &Timestamp { secs: -5, nanos: 9 },
        &BlockData::Text("a\"b".to_string()),
    );
    assert_eq!(h.to_hex(), "91676872c6e728d5585a275f9492feb282a7ef32b193cea40930f68bf1da3970");
}

#[test]
fn hex_text_read_then_written_is_unchanged() {
    let text = "00ff10a9".repeat(8);
    let h = blockchain::hash::Hash::from_hex(text.as_bytes()).unwrap();
    assert_eq!(h.as_bytes()[1], 0xff);
    assert_eq!(h.to_hex(), text);
}

#[test]
fn json_form_escapes_controls_quotes_and_backslashes() {
    let data = BlockData::Text("a\u{1}\u{1f}\n\t\\é".to_string());
    assert_eq!(
        data.json_bytes(),
        "\"a\\u0001\\u001f\\n\\t\\\\é\"".as_bytes().to_vec()
    );
}

#[test]
fn timestamps_from_clock_offsets() {
    assert_eq!(Timestamp::from_epoch_offset(true, 1700000000, 5), Timestamp { secs: 1700000000, nanos: 5 });
    assert_eq!(Timestamp::from_epoch_offset(false, 10, 0), Timestamp { secs: -10, nanos: 0 });
    assert_eq!(Timestamp::from_epoch_offset(false, 10, 250), Timestamp { secs: -11, nanos: 999_999_750 });
    assert_eq!(Timestamp::from_epoch_offset(true, u64::MAX, 0), Timestamp { secs: i64::MAX, nanos: 0 });
    assert_eq!(Timestamp::from_epoch_offset(false, u64::MAX, 1), Timestamp { secs: i64::MIN, nanos: 999_999_999 });
}
