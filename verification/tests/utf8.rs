use serve::conn::utf8_is_valid;

#[test]
fn utf8_validation_accepts_valid_encodings() {
    for s in ["", "hello", "héllo", "€ 100", "\u{10348}", "\u{10FFFF}", "\r\n\t"] {
        assert!(utf8_is_valid(&s.as_bytes().to_vec()), "{:?} must be valid", s);
    }
}

#[test]
fn utf8_validation_rejects_malformed_encodings() {
    let bad: &[&[u8]] = &[
        &[0xff],
        &[0x80],                    // lone continuation byte
        &[0xc3],                    // truncated two-byte encoding
        &[0xc0, 0x80],              // overlong NUL
        &[0xe0, 0x80, 0x80],        // overlong two-byte value
        &[0xed, 0xa0, 0x80],        // surrogate
        &[0xf0, 0x80, 0x80, 0x80],  // overlong four-byte value
        &[0xf4, 0x90, 0x80, 0x80],  // beyond U+10FFFF
        &[0xe2, 0x82],              // truncated three-byte encoding
        &[b'a', 0xc3, b'b'],        // continuation replaced by ASCII
    ];
    for b in bad {
        assert!(!utf8_is_valid(&b.to_vec()), "{:?} must be rejected", b);
    }
}

#[test]
fn utf8_validation_matches_std_on_all_short_inputs() {
    for a in 0..=255u8 {
        let v = vec![a];
        assert_eq!(utf8_is_valid(&v), std::str::from_utf8(&v).is_ok(), "byte {:#x}", a);
    }
    for a in 0..=255u8 {
        for b in (0..=255u8).step_by(7) {
            let v = vec![a, b];
            assert_eq!(
                utf8_is_valid(&v),
                std::str::from_utf8(&v).is_ok(),
                "bytes {:#x} {:#x}",
                a,
                b
            );
        }
    }
}
