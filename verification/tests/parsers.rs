use serve::framing::{
    chunk_size_of, detect_framing, parse_dec, parse_hex, trim_bytes, BodyFraming,
};

fn lines(hs: &[&str]) -> Vec<Vec<u8>> {
    hs.iter().map(|h| h.as_bytes().to_vec()).collect()
}

#[test]
fn trim_removes_surrounding_whitespace_only() {
    assert_eq!(trim_bytes(&b"  a b \t\r\n".to_vec()), b"a b".to_vec());
    assert_eq!(trim_bytes(&b"abc".to_vec()), b"abc".to_vec());
    assert_eq!(trim_bytes(&b" \t\r\n ".to_vec()), Vec::<u8>::new());
    assert_eq!(trim_bytes(&Vec::new()), Vec::<u8>::new());
}

#[test]
fn decimal_parsing_matches_str_parse() {
    assert_eq!(parse_dec(&b"0".to_vec()), Some(0));
    assert_eq!(parse_dec(&b"42".to_vec()), Some(42));
    assert_eq!(parse_dec(&b"+42".to_vec()), Some(42));
    assert_eq!(parse_dec(&b"007".to_vec()), Some(7));
    assert_eq!(parse_dec(&b"".to_vec()), None);
    assert_eq!(parse_dec(&b"+".to_vec()), None);
    assert_eq!(parse_dec(&b"-1".to_vec()), None);
    assert_eq!(parse_dec(&b"4 2".to_vec()), None);
    assert_eq!(parse_dec(&b"99999999999999999999999999".to_vec()), None);
    assert_eq!(
        parse_dec(&usize::MAX.to_string().into_bytes()),
        Some(usize::MAX)
    );
}

#[test]
fn hexadecimal_parsing_matches_from_str_radix() {
    assert_eq!(parse_hex(&b"0".to_vec()), Some(0));
    assert_eq!(parse_hex(&b"ff".to_vec()), Some(255));
    assert_eq!(parse_hex(&b"FF".to_vec()), Some(255));
    assert_eq!(parse_hex(&b"+a".to_vec()), Some(10));
    assert_eq!(parse_hex(&b"1000".to_vec()), Some(4096));
    assert_eq!(parse_hex(&b"".to_vec()), None);
    assert_eq!(parse_hex(&b"0x10".to_vec()), None);
    assert_eq!(parse_hex(&b"-1".to_vec()), None);
    assert_eq!(parse_hex(&b"fffffffffffffffffffff".to_vec()), None);
}

#[test]
fn chunk_size_trims_and_defaults_to_zero() {
    assert_eq!(chunk_size_of(&b" 4\r\n".to_vec()), 4);
    assert_eq!(chunk_size_of(&b"1A\r\n".to_vec()), 26);
    assert_eq!(chunk_size_of(&b"zz\r\n".to_vec()), 0);
    assert_eq!(chunk_size_of(&b"\r\n".to_vec()), 0);
    assert_eq!(chunk_size_of(&Vec::new()), 0);
}

#[test]
fn framing_decision_covers_all_modes() {
    assert_eq!(detect_framing(&lines(&["GET / HTTP/1.1", "Host: x"])), BodyFraming::NoBody);
    assert_eq!(
        detect_framing(&lines(&["POST / HTTP/1.1", "Content-Length: 12"])),
        BodyFraming::ContentLength(12)
    );
    assert_eq!(
        detect_framing(&lines(&["POST / HTTP/1.1", "transfer-encoding: chunked"])),
        BodyFraming::Chunked
    );
    assert_eq!(
        detect_framing(&lines(&[
            "POST / HTTP/1.1",
            "Content-Length: 12",
            "Transfer-Encoding: gzip, chunked",
        ])),
        BodyFraming::Chunked
    );
    // A transfer-encoding header without "chunked" in it is no chunked framing.
    assert_eq!(
        detect_framing(&lines(&["POST / HTTP/1.1", "Transfer-Encoding: gzip"])),
        BodyFraming::NoBody
    );
    // The value is the segment after ": ", trimmed.
    assert_eq!(
        detect_framing(&lines(&["Content-Length:  8  "])),
        BodyFraming::ContentLength(8)
    );
    assert_eq!(detect_framing(&Vec::new()), BodyFraming::NoBody);
}
