use hvac_limpet::utf8::utf8_body_valid;

#[test]
fn empty_body_is_valid() {
    assert!(utf8_body_valid(b""));
}

#[test]
fn ascii_is_valid() {
    assert!(utf8_body_valid(b"{\"ok\":true}\r\n"));
}

#[test]
fn two_byte_sequences_valid() {
    // U+00E9, U+00FC
    assert!(utf8_body_valid(&[0xC3, 0xA9, 0xC3, 0xBC]));
}

#[test]
fn three_byte_sequences_valid() {
    // U+20AC, U+0800
    assert!(utf8_body_valid(&[0xE2, 0x82, 0xAC, 0xE0, 0xA0, 0x80]));
}

#[test]
fn four_byte_sequences_valid() {
    // U+1F600, U+10FFFF
    assert!(utf8_body_valid(&[0xF0, 0x9F, 0x98, 0x80, 0xF4, 0x8F, 0xBF, 0xBF]));
}

#[test]
fn bare_continuation_byte_rejected() {
    assert!(!utf8_body_valid(&[0x80]));
}

#[test]
fn truncated_sequence_rejected() {
    assert!(!utf8_body_valid(&[0xE2, 0x82]));
    assert!(!utf8_body_valid(&[0xC3]));
    assert!(!utf8_body_valid(&[0xF0, 0x9F, 0x98]));
}

#[test]
fn overlong_encodings_rejected() {
    // Overlong forms of '/' and U+0000.
    assert!(!utf8_body_valid(&[0xC0, 0xAF]));
    assert!(!utf8_body_valid(&[0xC1, 0x80]));
    assert!(!utf8_body_valid(&[0xE0, 0x80, 0x80]));
    assert!(!utf8_body_valid(&[0xF0, 0x80, 0x80, 0x80]));
}

#[test]
fn surrogates_rejected() {
    // U+D800 and U+DFFF encoded directly.
    assert!(!utf8_body_valid(&[0xED, 0xA0, 0x80]));
    assert!(!utf8_body_valid(&[0xED, 0xBF, 0xBF]));
}

#[test]
fn beyond_max_code_point_rejected() {
    // U+110000 and 0xFF are not UTF-8.
    assert!(!utf8_body_valid(&[0xF4, 0x90, 0x80, 0x80]));
    assert!(!utf8_body_valid(&[0xFF]));
    assert!(!utf8_body_valid(&[0xFE, 0xFE]));
}

#[test]
fn lone_lead_byte_inside_text_rejected() {
    assert!(!utf8_body_valid(&[0x61, 0xC3, 0x61]));
}

#[test]
fn agrees_with_standard_decoder() {
    let samples: [&[u8]; 8] = [
        b"plain ascii",
        &[0xC3, 0xA9],
        &[0xE2, 0x82, 0xAC],
        &[0xF0, 0x9F, 0x98, 0x80],
        &[0xC3, 0x28],
        &[0xED, 0xA0, 0x80],
        &[0xF4, 0x90, 0x80, 0x80],
        &[0x80, 0x61],
    ];
    for s in samples {
        assert_eq!(utf8_body_valid(s), core::str::from_utf8(s).is_ok());
    }
}
