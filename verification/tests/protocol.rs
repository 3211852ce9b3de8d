use serve::conn::{Action, Conn, ConnError, Event};
use serve::status::HttpStatusCode;

fn code(v: u16) -> HttpStatusCode {
    HttpStatusCode::from_u16(v).expect("registered code")
}

fn line(s: &str) -> Event {
    Event::Line(s.as_bytes().to_vec())
}

/// Feed the header lines of a request, ending with the blank line, and
/// acknowledge the header diagnostic.
fn feed_headers(c: &mut Conn, headers: &[&str]) {
    for h in headers {
        assert_eq!(c.next_action(), Action::ReadLine);
        c.advance(line(&format!("{}\r\n", h)));
    }
    assert_eq!(c.next_action(), Action::ReadLine);
    c.advance(line("\r\n"));
    assert_eq!(c.next_action(), Action::EmitHeaders);
    c.advance(Event::Noted);
}

#[test]
fn content_length_request_is_read_exactly() {
    let mut c = Conn::new(code(200));
    feed_headers(&mut c, &["GET / HTTP/1.1", "Host: x", "Content-Length: 5"]);
    assert_eq!(
        c.header_lines(),
        &vec![
            b"GET / HTTP/1.1".to_vec(),
            b"Host: x".to_vec(),
            b"Content-Length: 5".to_vec(),
        ]
    );
    assert_eq!(c.next_action(), Action::ReadData(5));
    c.advance(Event::Data(b"hello".to_vec()));
    assert_eq!(c.next_action(), Action::EmitBody);
    assert_eq!(c.body_bytes().as_slice(), b"hello");
    c.advance(Event::Noted);
    assert_eq!(c.next_action(), Action::SendStatus);
    assert_eq!(c.response(), "HTTP/1.1 200 OK\r\n\r\n");
    c.advance(Event::Sent);
    assert_eq!(c.next_action(), Action::Stop);
    assert!(c.is_finished());
    assert_eq!(c.failure(), None);
}

#[test]
fn chunked_body_is_reassembled() {
    let mut c = Conn::new(code(200));
    feed_headers(&mut c, &["POST / HTTP/1.1", "Transfer-Encoding: chunked"]);
    assert_eq!(c.next_action(), Action::ReadLine);
    c.advance(line("4\r\n"));
    assert_eq!(c.next_action(), Action::ReadData(4));
    c.advance(Event::Data(b"Wiki".to_vec()));
    assert_eq!(c.next_action(), Action::ReadLine);
    c.advance(line("\r\n"));
    assert_eq!(c.next_action(), Action::ReadLine);
    c.advance(line("5\r\n"));
    assert_eq!(c.next_action(), Action::ReadData(5));
    c.advance(Event::Data(b"pedia".to_vec()));
    assert_eq!(c.next_action(), Action::ReadLine);
    c.advance(line("\r\n"));
    assert_eq!(c.next_action(), Action::ReadLine);
    c.advance(line("0\r\n"));
    assert_eq!(c.next_action(), Action::EmitBody);
    assert_eq!(c.body_bytes().as_slice(), b"Wikipedia");
    c.advance(Event::Noted);
    assert_eq!(c.next_action(), Action::SendStatus);
    c.advance(Event::Sent);
    assert!(c.is_finished());
    assert_eq!(c.failure(), None);
}

#[test]
fn request_without_body_is_answered() {
    let mut c = Conn::new(code(200));
    feed_headers(&mut c, &["GET / HTTP/1.1", "Host: x"]);
    assert_eq!(c.next_action(), Action::EmitBody);
    assert!(c.body_bytes().is_empty());
    c.advance(Event::Noted);
    assert_eq!(c.next_action(), Action::SendStatus);
    assert_eq!(c.response(), "HTTP/1.1 200 OK\r\n\r\n");
    c.advance(Event::Sent);
    assert!(c.is_finished());
    assert_eq!(c.failure(), None);
}

#[test]
fn truncated_body_fails_and_next_connection_is_fresh() {
    let mut c = Conn::new(code(200));
    feed_headers(&mut c, &["POST / HTTP/1.1", "Content-Length: 10"]);
    assert_eq!(c.next_action(), Action::ReadData(10));
    // The stream closed after 3 of the announced 10 bytes: the exact read
    // fails as a whole.
    c.advance(Event::DataShort);
    assert_eq!(c.next_action(), Action::Stop);
    assert_eq!(c.failure(), Some(ConnError::TruncatedBody));

    // The listener goes on: the next connection starts fresh and succeeds.
    let mut c2 = Conn::new(code(200));
    feed_headers(&mut c2, &["GET / HTTP/1.1"]);
    assert_eq!(c2.next_action(), Action::EmitBody);
    assert!(c2.body_bytes().is_empty());
    c2.advance(Event::Noted);
    assert_eq!(c2.response(), "HTTP/1.1 200 OK\r\n\r\n");
    c2.advance(Event::Sent);
    assert!(c2.is_finished());
    assert_eq!(c2.failure(), None);
}

#[test]
fn configured_code_is_sent_regardless_of_request() {
    let mut c = Conn::new(code(404));
    feed_headers(&mut c, &["GET /anything HTTP/1.1", "Content-Length: 2"]);
    assert_eq!(c.next_action(), Action::ReadData(2));
    c.advance(Event::Data(b"ok".to_vec()));
    c.advance(Event::Noted);
    assert_eq!(c.response(), "HTTP/1.1 404 Not Found\r\n\r\n");

    let mut c2 = Conn::new(code(404));
    feed_headers(&mut c2, &[]);
    c2.advance(Event::Noted);
    assert_eq!(c2.response(), "HTTP/1.1 404 Not Found\r\n\r\n");
}

#[test]
fn teapot_status_line() {
    let mut c = Conn::new(code(418));
    feed_headers(&mut c, &["GET / HTTP/1.1"]);
    c.advance(Event::Noted);
    assert_eq!(c.response(), "HTTP/1.1 418 I'm a teapot\r\n\r\n");
}

#[test]
fn invalid_utf8_content_length_body_fails() {
    let mut c = Conn::new(code(200));
    feed_headers(&mut c, &["POST / HTTP/1.1", "Content-Length: 3"]);
    assert_eq!(c.next_action(), Action::ReadData(3));
    c.advance(Event::Data(vec![0xff, 0xfe, 0xfd]));
    assert_eq!(c.next_action(), Action::Stop);
    assert_eq!(c.failure(), Some(ConnError::InvalidBodyEncoding));
}

#[test]
fn chunked_wins_over_content_length() {
    let mut c = Conn::new(code(200));
    feed_headers(
        &mut c,
        &["POST / HTTP/1.1", "Content-Length: 5", "Transfer-Encoding: chunked"],
    );
    // Chunked framing: the machine asks for a chunk-size line, not 5 bytes.
    assert_eq!(c.next_action(), Action::ReadLine);
    c.advance(line("0\r\n"));
    assert_eq!(c.next_action(), Action::EmitBody);
    assert!(c.body_bytes().is_empty());
}

#[test]
fn header_matching_is_case_insensitive() {
    let mut c = Conn::new(code(200));
    feed_headers(&mut c, &["POST / HTTP/1.1", "TRANSFER-ENCODING: Chunked"]);
    assert_eq!(c.next_action(), Action::ReadLine);

    let mut c2 = Conn::new(code(200));
    feed_headers(&mut c2, &["POST / HTTP/1.1", "CONTENT-LENGTH: 7"]);
    assert_eq!(c2.next_action(), Action::ReadData(7));
}

#[test]
fn malformed_content_length_means_no_body() {
    // No space after the colon: the value segment never starts.
    let mut c = Conn::new(code(200));
    feed_headers(&mut c, &["POST / HTTP/1.1", "Content-Length:5"]);
    assert_eq!(c.next_action(), Action::EmitBody);

    // Not a number.
    let mut c2 = Conn::new(code(200));
    feed_headers(&mut c2, &["POST / HTTP/1.1", "Content-Length: five"]);
    assert_eq!(c2.next_action(), Action::EmitBody);

    // Too large for usize.
    let mut c3 = Conn::new(code(200));
    feed_headers(
        &mut c3,
        &["POST / HTTP/1.1", "Content-Length: 99999999999999999999999999"],
    );
    assert_eq!(c3.next_action(), Action::EmitBody);
}

#[test]
fn first_content_length_header_decides() {
    let mut c = Conn::new(code(200));
    feed_headers(
        &mut c,
        &["POST / HTTP/1.1", "Content-Length: 2", "Content-Length: 9"],
    );
    assert_eq!(c.next_action(), Action::ReadData(2));
}

#[test]
fn unparseable_chunk_size_ends_the_body() {
    let mut c = Conn::new(code(200));
    feed_headers(&mut c, &["POST / HTTP/1.1", "Transfer-Encoding: chunked"]);
    c.advance(line("zz\r\n"));
    // The malformed size reads as 0, the same signal as a terminal chunk.
    assert_eq!(c.next_action(), Action::EmitBody);
    assert!(c.body_bytes().is_empty());
}

#[test]
fn chunk_sizes_are_hexadecimal() {
    let mut c = Conn::new(code(200));
    feed_headers(&mut c, &["POST / HTTP/1.1", "Transfer-Encoding: chunked"]);
    c.advance(line("A\r\n"));
    assert_eq!(c.next_action(), Action::ReadData(10));
    c.advance(Event::Data(b"0123456789".to_vec()));
    c.advance(line("\r\n"));
    c.advance(line("+a\r\n"));
    assert_eq!(c.next_action(), Action::ReadData(10));
}

#[test]
fn stream_end_during_chunked_body_ends_it() {
    let mut c = Conn::new(code(200));
    feed_headers(&mut c, &["POST / HTTP/1.1", "Transfer-Encoding: chunked"]);
    c.advance(line("4\r\n"));
    c.advance(Event::Data(b"Wiki".to_vec()));
    c.advance(Event::Closed);
    // The separator read saw end of stream; the next size line will too,
    // and an empty size line reads as 0.
    assert_eq!(c.next_action(), Action::ReadLine);
    c.advance(Event::Closed);
    assert_eq!(c.next_action(), Action::EmitBody);
    assert_eq!(c.body_bytes().as_slice(), b"Wiki");
}

#[test]
fn stream_end_before_blank_line_uses_headers_so_far() {
    let mut c = Conn::new(code(200));
    c.advance(line("GET / HTTP/1.1\r\n"));
    c.advance(Event::Closed);
    assert_eq!(c.next_action(), Action::EmitHeaders);
    assert_eq!(c.header_lines(), &vec![b"GET / HTTP/1.1".to_vec()]);
    c.advance(Event::Noted);
    assert_eq!(c.next_action(), Action::EmitBody);
}

#[test]
fn read_failure_during_headers_aborts() {
    let mut c = Conn::new(code(200));
    c.advance(line("GET / HTTP/1.1\r\n"));
    c.advance(Event::ReadFailed);
    assert_eq!(c.next_action(), Action::Stop);
    assert_eq!(c.failure(), Some(ConnError::ConnectionIo));
}

#[test]
fn write_failure_aborts() {
    let mut c = Conn::new(code(200));
    feed_headers(&mut c, &["GET / HTTP/1.1"]);
    c.advance(Event::Noted);
    assert_eq!(c.next_action(), Action::SendStatus);
    c.advance(Event::SendFailed);
    assert_eq!(c.next_action(), Action::Stop);
    assert_eq!(c.failure(), Some(ConnError::ConnectionIo));
}

#[test]
fn header_lines_are_trimmed_and_kept_in_order() {
    let mut c = Conn::new(code(200));
    c.advance(line("  GET / HTTP/1.1  \r\n"));
    c.advance(line("X-Pad: \t a b \t\r\n"));
    c.advance(line("X-Pad: \t a b \t\r\n"));
    c.advance(line("\r\n"));
    assert_eq!(
        c.header_lines(),
        &vec![
            b"GET / HTTP/1.1".to_vec(),
            b"X-Pad: \t a b".to_vec(),
            b"X-Pad: \t a b".to_vec(),
        ]
    );
}
