use hotkey_capture::wide::{
    capture_or_empty, decode_wide_nul_terminated, decode_wide_units, wide_text_len,
};

#[test]
fn decodes_ascii() {
    assert_eq!(decode_wide_units(&[72, 105]), "Hi".to_string());
}

#[test]
fn decodes_empty() {
    assert_eq!(decode_wide_units(&[]), String::new());
}

#[test]
fn decodes_basic_multilingual_plane() {
    // U+4E2D
    assert_eq!(decode_wide_units(&[0x4E2D]), "\u{4E2D}".to_string());
}

#[test]
fn decodes_surrogate_pair() {
    // U+1F600 encodes as the pair D83D DE00
    assert_eq!(decode_wide_units(&[0xD83D, 0xDE00]), "\u{1F600}".to_string());
}

#[test]
fn lone_high_surrogate_is_replaced() {
    assert_eq!(decode_wide_units(&[0xD800, 65]), "\u{FFFD}A".to_string());
}

#[test]
fn lone_low_surrogate_is_replaced() {
    assert_eq!(decode_wide_units(&[0xDC00]), "\u{FFFD}".to_string());
}

#[test]
fn trailing_high_surrogate_is_replaced() {
    assert_eq!(decode_wide_units(&[65, 0xD83D]), "A\u{FFFD}".to_string());
}

#[test]
fn decode_agrees_with_lossy_std_decoding() {
    let units: Vec<u16> = "héllo wörld \u{1F600}".encode_utf16().collect();
    let expected = String::from_utf16_lossy(&units);
    assert_eq!(decode_wide_units(&units), expected);
}

#[test]
fn wide_text_len_stops_at_nul() {
    assert_eq!(wide_text_len(&[104, 105, 0, 106]), 2);
    assert_eq!(wide_text_len(&[0]), 0);
    assert_eq!(wide_text_len(&[104, 105]), 2);
    assert_eq!(wide_text_len(&[]), 0);
}

#[test]
fn nul_terminated_decode_takes_prefix() {
    assert_eq!(decode_wide_nul_terminated(&[104, 105, 0, 106]), "hi".to_string());
    assert_eq!(decode_wide_nul_terminated(&[0, 104]), String::new());
}

#[test]
fn capture_of_absent_read_is_empty() {
    assert_eq!(capture_or_empty(None), String::new());
    assert_eq!(capture_or_empty(Some("kept".to_string())), "kept".to_string());
}
