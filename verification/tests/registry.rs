use serve::status::HttpStatusCode;

const TABLE: &[(u16, &str)] = &[
    (100, "Continue"),
    (101, "Switching Protocols"),
    (102, "Processing"),
    (200, "OK"),
    (201, "Created"),
    (202, "Accepted"),
    (203, "Non-Authoritative Information"),
    (204, "No Content"),
    (205, "Reset Content"),
    (206, "Partial Content"),
    (207, "Multi-Status"),
    (208, "Already Reported"),
    (226, "IM Used"),
    (300, "Multiple Choices"),
    (301, "Moved Permanently"),
    (302, "Found"),
    (303, "See Other"),
    (304, "Not Modified"),
    (305, "Use Proxy"),
    (307, "Temporary Redirect"),
    (308, "Permanent Redirect"),
    (400, "Bad Request"),
    (401, "Unauthorized"),
    (402, "Payment Required"),
    (403, "Forbidden"),
    (404, "Not Found"),
    (405, "Method Not Allowed"),
    (406, "Not Acceptable"),
    (407, "Proxy Authentication Required"),
    (408, "Request Timeout"),
    (409, "Conflict"),
    (410, "Gone"),
    (411, "Length Required"),
    (412, "Precondition Failed"),
    (413, "Payload Too Large"),
    (414, "URI Too Long"),
    (415, "Unsupported Media Type"),
    (416, "Range Not Satisfiable"),
    (417, "Expectation Failed"),
    (418, "I'm a teapot"),
    (421, "Misdirected Request"),
    (422, "Unprocessable Entity"),
    (423, "Locked"),
    (424, "Failed Dependency"),
    (425, "Too Early"),
    (426, "Upgrade Required"),
    (428, "Precondition Required"),
    (429, "Too Many Requests"),
    (431, "Request Header Fields Too Large"),
    (451, "Unavailable For Legal Reasons"),
    (500, "Internal Server Error"),
    (501, "Not Implemented"),
    (502, "Bad Gateway"),
    (503, "Service Unavailable"),
    (504, "Gateway Timeout"),
    (505, "HTTP Version Not Supported"),
    (506, "Variant Also Negotiates"),
    (507, "Insufficient Storage"),
    (508, "Loop Detected"),
    (510, "Not Extended"),
    (511, "Network Authentication Required"),
];

#[test]
fn round_trip_every_registered_code() {
    for &(code, phrase) in TABLE {
        let parsed = HttpStatusCode::from_u16(code)
            .unwrap_or_else(|| panic!("code {} should be registered", code));
        assert_eq!(parsed.code(), code);
        assert_eq!(parsed.reason_phrase(), phrase);
    }
}

#[test]
fn unregistered_codes_are_rejected() {
    for code in [0u16, 1, 99, 103, 199, 209, 225, 227, 306, 309, 399, 419, 420, 427, 430, 432,
        450, 452, 499, 509, 512, 600, 999, u16::MAX]
    {
        assert!(HttpStatusCode::from_u16(code).is_none(), "code {} must be rejected", code);
    }
}

#[test]
fn every_u16_parses_iff_registered() {
    let mut registered: usize = 0;
    for code in 0..=u16::MAX {
        if let Some(parsed) = HttpStatusCode::from_u16(code) {
            assert_eq!(parsed.code(), code);
            registered += 1;
        }
    }
    assert_eq!(registered, TABLE.len());
}
