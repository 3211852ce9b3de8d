//! The per-connection protocol state machine.
//!
//! One accepted stream is handled by one [`Conn`]. The machine never touches
//! the stream itself: [`Conn::next_action`] names the one I/O step the caller
//! must perform (read a line, read an exact byte count, emit a diagnostic,
//! send the response), and [`Conn::advance`] takes the outcome of that step
//! as an [`Event`] and moves the protocol forward. Every decision between
//! the I/O steps — when header collection ends, how the body is framed, how
//! chunks are reassembled, what is answered — is made here and verified.
use crate::framing::{
    chunk_size_spec, detect_framing, spec_framing, spec_trim, trim_bytes, BodyFraming,
};
use crate::status::HttpStatusCode;
use vstd::prelude::*;
use vstd::string::*;
use vstd::utf8::*;

verus! {

/// Why a connection was abandoned. Each failure is fatal to its own
/// connection only: the caller drops the stream, sends nothing, and goes on
/// to accept the next connection.
#[derive(Debug, Clone, Copy, PartialEq, Eq)]
pub enum ConnError {
    /// A read or write on the stream failed mid-protocol.
    ConnectionIo,
    /// The stream ended before the announced body had arrived in full.
    TruncatedBody,
    /// A `Content-Length` body was not valid UTF-8.
    InvalidBodyEncoding,
}

/// The outcome of the last I/O action, reported back to the machine.
#[derive(Debug)]
pub enum Event {
    /// A line was read, its terminator included.
    Line(Vec<u8>),
    /// The read returned no bytes: the stream has ended.
    Closed,
    /// The line read failed.
    ReadFailed,
    /// An exact-byte read succeeded with these bytes.
    Data(Vec<u8>),
    /// The exact-byte read failed or the stream ended short of the count.
    DataShort,
    /// A requested diagnostic was emitted.
    Noted,
    /// The response was written in full.
    Sent,
    /// The response write failed.
    SendFailed,
}

/// The mathematical shape of an [`Event`]: its payload as a byte sequence.
pub enum EventModel {
    Line(Seq<u8>),
    Closed,
    ReadFailed,
    Data(Seq<u8>),
    DataShort,
    Noted,
    Sent,
    SendFailed,
}

impl View for Event {
    type V = EventModel;

    open spec fn view(&self) -> EventModel {
        match self {
            Event::Line(l) => EventModel::Line(l@),
            Event::Closed => EventModel::Closed,
            Event::ReadFailed => EventModel::ReadFailed,
            Event::Data(b) => EventModel::Data(b@),
            Event::DataShort => EventModel::DataShort,
            Event::Noted => EventModel::Noted,
            Event::Sent => EventModel::Sent,
            Event::SendFailed => EventModel::SendFailed,
        }
    }
}

/// The I/O step the caller must perform next.
#[derive(Debug, Clone, Copy, PartialEq, Eq)]
pub enum Action {
    /// Read one CRLF-terminated line from the stream.
    ReadLine,
    /// Read exactly this many bytes from the stream.
    ReadData(usize),
    /// Emit the collected header lines as a diagnostic.
    EmitHeaders,
    /// Emit the assembled body as a diagnostic.
    EmitBody,
    /// Write the response returned by [`Conn::response`] to the stream.
    SendStatus,
    /// The connection is finished: drop the stream.
    Stop,
}

/// Where in the protocol a connection stands.
#[derive(Debug, Clone, Copy, PartialEq, Eq)]
pub enum Phase {
    /// Collecting header lines until a blank line or end of stream.
    Headers,
    /// Headers are complete and wait to be emitted as a diagnostic.
    ShowHeaders,
    /// Expecting a chunk-size line.
    ChunkSize,
    /// Expecting exactly this many bytes of chunk data.
    ChunkData(usize),
    /// Expecting the line that trails a chunk's data.
    ChunkSep,
    /// Expecting the announced `Content-Length` body, this many bytes.
    FixedBody(usize),
    /// The body is complete and waits to be emitted as a diagnostic.
    ShowBody,
    /// Everything read: the response waits to be written.
    Respond,
    /// The response was written; the protocol ran to completion.
    Complete,
    /// The connection was abandoned for this reason.
    Failed(ConnError),
}

/// The machine driving one connection.
pub struct Conn {
    pub phase: Phase,
    pub headers: Vec<Vec<u8>>,
    pub body: Vec<u8>,
    pub code: HttpStatusCode,
}

/// The mathematical state of a connection: its phase, the trimmed header
/// lines in wire order, the body bytes assembled so far, and the configured
/// status code.
#[verifier::ext_equal]
pub struct ConnModel {
    pub phase: Phase,
    pub headers: Seq<Seq<u8>>,
    pub body: Seq<u8>,
    pub code: HttpStatusCode,
}

impl View for Conn {
    type V = ConnModel;

    open spec fn view(&self) -> ConnModel {
        ConnModel {
            phase: self.phase,
            headers: self.headers.deep_view(),
            body: self.body@,
            code: self.code,
        }
    }
}

/// The two bytes of a bare CRLF line: the blank line that ends the headers.
pub open spec fn crlf() -> Seq<u8> {
    seq![13u8, 10u8]
}

/// The state a fresh connection starts in: collecting headers, nothing read.
pub open spec fn init_model(code: HttpStatusCode) -> ConnModel {
    ConnModel { phase: Phase::Headers, headers: Seq::empty(), body: Seq::empty(), code }
}

/// A phase in which the connection is over, well or badly.
pub open spec fn is_terminal(p: Phase) -> bool {
    p is Complete || p is Failed
}

/// The error a phase carries, if it is a failed one.
pub open spec fn spec_failure(p: Phase) -> Option<ConnError> {
    match p {
        Phase::Failed(e) => Some(e),
        _ => None,
    }
}

/// `m` abandoned with the error `e`.
pub open spec fn fail(m: ConnModel, e: ConnError) -> ConnModel {
    ConnModel { phase: Phase::Failed(e), ..m }
}

/// The action pending in each phase.
pub open spec fn spec_next_action(m: ConnModel) -> Action {
    match m.phase {
        Phase::Headers => Action::ReadLine,
        Phase::ShowHeaders => Action::EmitHeaders,
        Phase::ChunkSize => Action::ReadLine,
        Phase::ChunkData(n) => Action::ReadData(n),
        Phase::ChunkSep => Action::ReadLine,
        Phase::FixedBody(n) => Action::ReadData(n),
        Phase::ShowBody => Action::EmitBody,
        Phase::Respond => Action::SendStatus,
        Phase::Complete => Action::Stop,
        Phase::Failed(_) => Action::Stop,
    }
}

/// The transition relation of the protocol, one event at a time.
///
/// Header collection appends each trimmed non-blank line and ends on a bare
/// CRLF or on end of stream. The framing decision then picks chunked framing
/// over a `Content-Length` over no body. A chunk-size line of value 0 — a
/// terminal chunk or an unparseable numeral alike — ends the body; any other
/// value demands that many bytes, appended raw, then one trailing line is
/// discarded. A `Content-Length` body must arrive in full and be valid
/// UTF-8. After the diagnostics, the one response is written and the
/// connection completes. An event that its phase does not expect changes
/// nothing.
pub open spec fn spec_advance(m: ConnModel, e: EventModel) -> ConnModel {
    match (m.phase, e) {
        (Phase::Headers, EventModel::Line(l)) => {
            if l == crlf() {
                ConnModel { phase: Phase::ShowHeaders, ..m }
            } else {
                ConnModel { phase: Phase::Headers, headers: m.headers.push(spec_trim(l)), ..m }
            }
        },
        (Phase::Headers, EventModel::Closed) => ConnModel { phase: Phase::ShowHeaders, ..m },
        (Phase::Headers, EventModel::ReadFailed) => fail(m, ConnError::ConnectionIo),
        (Phase::ShowHeaders, EventModel::Noted) => {
            match spec_framing(m.headers) {
                BodyFraming::Chunked => ConnModel { phase: Phase::ChunkSize, ..m },
                BodyFraming::ContentLength(n) => ConnModel { phase: Phase::FixedBody(n), ..m },
                BodyFraming::NoBody => ConnModel { phase: Phase::ShowBody, ..m },
            }
        },
        (Phase::ChunkSize, EventModel::Line(l)) => {
            if chunk_size_spec(spec_trim(l)) == 0 {
                ConnModel { phase: Phase::ShowBody, ..m }
            } else {
                ConnModel { phase: Phase::ChunkData(chunk_size_spec(spec_trim(l))), ..m }
            }
        },
        (Phase::ChunkSize, EventModel::Closed) => ConnModel { phase: Phase::ShowBody, ..m },
        (Phase::ChunkSize, EventModel::ReadFailed) => fail(m, ConnError::ConnectionIo),
        (Phase::ChunkData(_), EventModel::Data(b)) => (ConnModel {
            phase: Phase::ChunkSep,
            body: m.body + b,
            ..m
        }),
        (Phase::ChunkData(_), EventModel::DataShort) => fail(m, ConnError::TruncatedBody),
        (Phase::ChunkSep, EventModel::Line(_)) => ConnModel { phase: Phase::ChunkSize, ..m },
        (Phase::ChunkSep, EventModel::Closed) => ConnModel { phase: Phase::ChunkSize, ..m },
        (Phase::ChunkSep, EventModel::ReadFailed) => fail(m, ConnError::ConnectionIo),
        (Phase::FixedBody(_), EventModel::Data(b)) => {
            if valid_utf8(b) {
                ConnModel { phase: Phase::ShowBody, body: b, ..m }
            } else {
                fail(m, ConnError::InvalidBodyEncoding)
            }
        },
        (Phase::FixedBody(_), EventModel::DataShort) => fail(m, ConnError::TruncatedBody),
        (Phase::ShowBody, EventModel::Noted) => ConnModel { phase: Phase::Respond, ..m },
        (Phase::Respond, EventModel::Sent) => ConnModel { phase: Phase::Complete, ..m },
        (Phase::Respond, EventModel::SendFailed) => fail(m, ConnError::ConnectionIo),
        _ => m,
    }
}

/// Whether `b` is a valid UTF-8 encoding, checked scalar by scalar: each
/// leading byte announces a width, its continuation bytes must follow, and
/// the decoded codepoint must be neither an overlong encoding nor a
/// surrogate.
pub fn utf8_is_valid(b: &Vec<u8>) -> (r: bool)
    ensures
        r == valid_utf8(b@),
{
    let n: usize = b.len();
    proof {
        assert(b@.subrange(0, n as int) =~= b@);
    }
    let mut i: usize = 0;
    while i < n
        invariant
            0 <= i <= n,
            n == b@.len(),
            valid_utf8(b@) == valid_utf8(b@.subrange(i as int, n as int)),
        decreases n - i,
    {
        let ghost s = b@.subrange(i as int, n as int);
        proof {
            assert(s[0] == b@[i as int]);
        }
        let b0 = b[i];
        let width: usize;
        if b0 <= 0x7f {
            width = 1;
            proof {
                assert(valid_first_scalar(s));
                assert(length_of_first_scalar(s) == 1);
            }
        } else if 0xc0 <= b0 && b0 <= 0xdf {
            if n - i < 2 {
                proof {
                    assert(!valid_first_scalar(s));
                }
                return false;
            }
            proof {
                assert(s[1] == b@[i as int + 1]);
            }
            let b1 = b[i + 1];
            if !(0x80 <= b1 && b1 <= 0xbf) {
                proof {
                    assert(!valid_first_scalar(s));
                }
                return false;
            }
            let cp: u32 = (((b0 & 0x1f) as u32) << 6u32) | ((b1 & 0x3f) as u32);
            proof {
                assert(cp == decode_first_codepoint(s));
            }
            if cp < 0x80 || (0xd800 <= cp && cp <= 0xdfff) {
                proof {
                    assert(!valid_first_scalar(s));
                }
                return false;
            }
            width = 2;
            proof {
                assert(valid_first_scalar(s));
                assert(length_of_first_scalar(s) == 2);
            }
        } else if 0xe0 <= b0 && b0 <= 0xef {
            if n - i < 3 {
                proof {
                    assert(!valid_first_scalar(s));
                }
                return false;
            }
            proof {
                assert(s[1] == b@[i as int + 1]);
                assert(s[2] == b@[i as int + 2]);
            }
            let b1 = b[i + 1];
            let b2 = b[i + 2];
            if !(0x80 <= b1 && b1 <= 0xbf) || !(0x80 <= b2 && b2 <= 0xbf) {
                proof {
                    assert(!valid_first_scalar(s));
                }
                return false;
            }
            let cp: u32 = (((b0 & 0x0f) as u32) << 12u32) | (((b1 & 0x3f) as u32) << 6u32)
                | ((b2 & 0x3f) as u32);
            proof {
                assert(cp == decode_first_codepoint(s));
            }
            if cp < 0x800 || (0xd800 <= cp && cp <= 0xdfff) {
                proof {
                    assert(!valid_first_scalar(s));
                }
                return false;
            }
            width = 3;
            proof {
                assert(valid_first_scalar(s));
                assert(length_of_first_scalar(s) == 3);
            }
        } else if 0xf0 <= b0 && b0 <= 0xf7 {
            if n - i < 4 {
                proof {
                    assert(!valid_first_scalar(s));
                }
                return false;
            }
            proof {
                assert(s[1] == b@[i as int + 1]);
                assert(s[2] == b@[i as int + 2]);
                assert(s[3] == b@[i as int + 3]);
            }
            let b1 = b[i + 1];
            let b2 = b[i + 2];
            let b3 = b[i + 3];
            if !(0x80 <= b1 && b1 <= 0xbf) || !(0x80 <= b2 && b2 <= 0xbf)
                || !(0x80 <= b3 && b3 <= 0xbf) {
                proof {
                    assert(!valid_first_scalar(s));
                }
                return false;
            }
            let cp: u32 = (((b0 & 0x07) as u32) << 18u32) | (((b1 & 0x3f) as u32) << 12u32)
                | (((b2 & 0x3f) as u32) << 6u32) | ((b3 & 0x3f) as u32);
            proof {
                assert(cp == decode_first_codepoint(s));
            }
            if cp < 0x10000 || cp > 0x10ffff || (0xd800 <= cp && cp <= 0xdfff) {
                proof {
                    assert(!valid_first_scalar(s));
                }
                return false;
            }
            width = 4;
            proof {
                assert(valid_first_scalar(s));
                assert(length_of_first_scalar(s) == 4);
            }
        } else {
            proof {
                assert(!valid_first_scalar(s));
            }
            return false;
        }
        proof {
            assert(pop_first_scalar(s) =~= b@.subrange(i as int + width as int, n as int));
            assert(valid_utf8(s) == valid_utf8(b@.subrange(i as int + width as int, n as int)));
        }
        i += width;
    }
    proof {
        assert(valid_utf8(b@.subrange(n as int, n as int)));
    }
    true
}

impl Conn {
    /// Start handling one freshly accepted connection.
    pub fn new(code: HttpStatusCode) -> (c: Conn)
        ensures
            c@ == init_model(code),
    {
        let c = Conn { phase: Phase::Headers, headers: Vec::new(), body: Vec::new(), code };
        proof {
            assert(c@ =~~= init_model(code));
        }
        c
    }

    /// The I/O step the caller must perform next on the stream.
    pub fn next_action(&self) -> (a: Action)
        ensures
            a == spec_next_action(self@),
    {
        match self.phase {
            Phase::Headers => Action::ReadLine,
            Phase::ShowHeaders => Action::EmitHeaders,
            Phase::ChunkSize => Action::ReadLine,
            Phase::ChunkData(n) => Action::ReadData(n),
            Phase::ChunkSep => Action::ReadLine,
            Phase::FixedBody(n) => Action::ReadData(n),
            Phase::ShowBody => Action::EmitBody,
            Phase::Respond => Action::SendStatus,
            Phase::Complete => Action::Stop,
            Phase::Failed(_) => Action::Stop,
        }
    }

    /// Report the outcome of the last action and move the protocol forward.
    pub fn advance(&mut self, e: Event)
        ensures
            final(self)@ == spec_advance(old(self)@, e@),
    {
        match e {
            Event::Line(l) => {
                match self.phase {
                    Phase::Headers => {
                        if l.len() == 2 && l[0] == 13 && l[1] == 10 {
                            proof {
                                assert(l@ =~= crlf());
                            }
                            self.phase = Phase::ShowHeaders;
                        } else {
                            proof {
                                assert(l@ != crlf());
                            }
                            let t = trim_bytes(&l);
                            self.headers.push(t);
                            proof {
                                assert(self@ =~~= spec_advance(old(self)@, e@));
                            }
                        }
                    },
                    Phase::ChunkSize => {
                        let n = crate::framing::chunk_size_of(&l);
                        if n == 0 {
                            self.phase = Phase::ShowBody;
                        } else {
                            self.phase = Phase::ChunkData(n);
                        }
                    },
                    Phase::ChunkSep => {
                        self.phase = Phase::ChunkSize;
                    },
                    _ => {},
                }
            },
            Event::Closed => {
                match self.phase {
                    Phase::Headers => {
                        self.phase = Phase::ShowHeaders;
                    },
                    Phase::ChunkSize => {
                        self.phase = Phase::ShowBody;
                    },
                    Phase::ChunkSep => {
                        self.phase = Phase::ChunkSize;
                    },
                    _ => {},
                }
            },
            Event::ReadFailed => {
                match self.phase {
                    Phase::Headers | Phase::ChunkSize | Phase::ChunkSep => {
                        self.phase = Phase::Failed(ConnError::ConnectionIo);
                    },
                    _ => {},
                }
            },
            Event::Data(b) => {
                match self.phase {
                    Phase::ChunkData(_) => {
                        let mut d = b;
                        self.body.append(&mut d);
                        self.phase = Phase::ChunkSep;
                    },
                    Phase::FixedBody(_) => {
                        if utf8_is_valid(&b) {
                            self.body = b;
                            self.phase = Phase::ShowBody;
                        } else {
                            self.phase = Phase::Failed(ConnError::InvalidBodyEncoding);
                        }
                    },
                    _ => {},
                }
            },
            Event::DataShort => {
                match self.phase {
                    Phase::ChunkData(_) | Phase::FixedBody(_) => {
                        self.phase = Phase::Failed(ConnError::TruncatedBody);
                    },
                    _ => {},
                }
            },
            Event::Noted => {
                match self.phase {
                    Phase::ShowHeaders => {
                        match detect_framing(&self.headers) {
                            BodyFraming::Chunked => {
                                self.phase = Phase::ChunkSize;
                            },
                            BodyFraming::ContentLength(n) => {
                                self.phase = Phase::FixedBody(n);
                            },
                            BodyFraming::NoBody => {
                                self.phase = Phase::ShowBody;
                            },
                        }
                    },
                    Phase::ShowBody => {
                        self.phase = Phase::Respond;
                    },
                    _ => {},
                }
            },
            Event::Sent => {
                match self.phase {
                    Phase::Respond => {
                        self.phase = Phase::Complete;
                    },
                    _ => {},
                }
            },
            Event::SendFailed => {
                match self.phase {
                    Phase::Respond => {
                        self.phase = Phase::Failed(ConnError::ConnectionIo);
                    },
                    _ => {},
                }
            },
        }
        proof {
            assert(self@ =~~= spec_advance(old(self)@, e@));
        }
    }

    /// The header lines collected so far: trimmed, in wire order,
    /// duplicates kept.
    pub fn header_lines(&self) -> (r: &Vec<Vec<u8>>)
        ensures
            r.deep_view() == self@.headers,
    {
        &self.headers
    }

    /// The body bytes assembled so far.
    pub fn body_bytes(&self) -> (r: &Vec<u8>)
        ensures
            r@ == self@.body,
    {
        &self.body
    }

    /// The status code every answered connection is configured to receive.
    pub fn status_code(&self) -> (r: HttpStatusCode)
        ensures
            r == self@.code,
    {
        self.code
    }

    /// Whether the protocol on this connection is over.
    pub fn is_finished(&self) -> (r: bool)
        ensures
            r == is_terminal(self@.phase),
    {
        match self.phase {
            Phase::Complete | Phase::Failed(_) => true,
            _ => false,
        }
    }

    /// The error that ended this connection, when one did.
    pub fn failure(&self) -> (r: Option<ConnError>)
        ensures
            r == spec_failure(self@.phase),
    {
        match self.phase {
            Phase::Failed(e) => Some(e),
            _ => None,
        }
    }

    /// The one response line this connection sends when asked to:
    /// the status line for the configured code and a blank line.
    pub fn response(&self) -> (r: String)
        ensures
            r@ == spec_status_line(self@.code),
    {
        status_line(self.code)
    }
}

// ---------------------------------------------------------------------------
// The response line
// ---------------------------------------------------------------------------

/// The character a decimal digit value prints as.
pub open spec fn spec_digit_char(d: int) -> char {
    if d == 0 {
        '0'
    } else if d == 1 {
        '1'
    } else if d == 2 {
        '2'
    } else if d == 3 {
        '3'
    } else if d == 4 {
        '4'
    } else if d == 5 {
        '5'
    } else if d == 6 {
        '6'
    } else if d == 7 {
        '7'
    } else if d == 8 {
        '8'
    } else {
        '9'
    }
}

/// The three decimal digits of a status code, most significant first.
pub open spec fn spec_code_chars(n: int) -> Seq<char> {
    seq![spec_digit_char(n / 100), spec_digit_char((n / 10) % 10), spec_digit_char(n % 10)]
}

/// The full response for `code`: an HTTP/1.1 status line carrying the code
/// and its canonical reason phrase, then a blank line; no headers, no body.
pub open spec fn spec_status_line(code: HttpStatusCode) -> Seq<char> {
    "HTTP/1.1 "@ + spec_code_chars(code.spec_code() as int) + " "@ + code.spec_phrase()
        + "\r\n\r\n"@
}

fn digit_str(d: u16) -> (r: &'static str)
    requires
        d < 10,
    ensures
        r@ == seq![spec_digit_char(d as int)],
{
    proof {
        reveal_strlit("0");
        reveal_strlit("1");
        reveal_strlit("2");
        reveal_strlit("3");
        reveal_strlit("4");
        reveal_strlit("5");
        reveal_strlit("6");
        reveal_strlit("7");
        reveal_strlit("8");
        reveal_strlit("9");
    }
    let r = match d {
        0 => "0",
        1 => "1",
        2 => "2",
        3 => "3",
        4 => "4",
        5 => "5",
        6 => "6",
        7 => "7",
        8 => "8",
        _ => "9",
    };
    proof {
        assert(r@ =~= seq![spec_digit_char(d as int)]);
    }
    r
}

/// Format the response for `code`: `HTTP/1.1 <code> <reason>` and a blank
/// line, CRLF-terminated.
pub fn status_line(code: HttpStatusCode) -> (r: String)
    ensures
        r@ == spec_status_line(code),
{
    let c: u16 = code.code();
    assert(100 <= c && c <= 511);
    let mut r = String::from_str("HTTP/1.1 ");
    r.append(digit_str(c / 100));
    r.append(digit_str((c / 10) % 10));
    r.append(digit_str(c % 10));
    r.append(" ");
    r.append(code.reason_phrase());
    r.append("\r\n\r\n");
    proof {
        assert(r@ =~= spec_status_line(code));
    }
    r
}

// ---------------------------------------------------------------------------
// Runs of the machine, and what holds of every run
// ---------------------------------------------------------------------------

/// The state a connection reaches after the events `evs`, one by one.
pub open spec fn spec_run(m: ConnModel, evs: Seq<EventModel>) -> ConnModel
    decreases evs.len(),
{
    if evs.len() == 0 {
        m
    } else {
        spec_run(spec_advance(m, evs[0]), evs.drop_first())
    }
}

/// One step of the machine never touches the configured status code.
pub proof fn lemma_advance_preserves_code(m: ConnModel, e: EventModel)
    ensures
        spec_advance(m, e).code == m.code,
{
}

/// No run of the machine, whatever its events, touches the configured
/// status code.
pub proof fn lemma_run_preserves_code(m: ConnModel, evs: Seq<EventModel>)
    ensures
        spec_run(m, evs).code == m.code,
    decreases evs.len(),
{
    if evs.len() > 0 {
        lemma_advance_preserves_code(m, evs[0]);
        lemma_run_preserves_code(spec_advance(m, evs[0]), evs.drop_first());
    }
}

/// Every connection is answered, when it is answered, with the status line
/// of the code configured at start: nothing in the request's events can
/// change what the response will say.
pub proof fn lemma_uniform_response(code: HttpStatusCode, evs: Seq<EventModel>)
    ensures
        spec_run(init_model(code), evs).code == code,
        spec_status_line(spec_run(init_model(code), evs).code) == spec_status_line(code),
{
    lemma_run_preserves_code(init_model(code), evs);
}

/// The outcomes of a sequence of connections, each handled from a fresh
/// initial state with the same configured code.
pub open spec fn spec_serve(code: HttpStatusCode, sessions: Seq<Seq<EventModel>>) -> Seq<
    ConnModel,
> {
    Seq::new(sessions.len(), |i: int| spec_run(init_model(code), sessions[i]))
}

/// Connection isolation: the outcome of one connection depends on its own
/// stream's events alone. Handling any number of other connections before
/// or after it — here, replacing every other session wholesale — leaves its
/// outcome unchanged, so no state leaks from one connection to the next.
pub proof fn lemma_connection_isolation(
    code: HttpStatusCode,
    s1: Seq<Seq<EventModel>>,
    s2: Seq<Seq<EventModel>>,
    i: int,
)
    requires
        0 <= i < s1.len(),
        0 <= i < s2.len(),
        s1[i] == s2[i],
    ensures
        spec_serve(code, s1)[i] == spec_serve(code, s2)[i],
{
}

} // verus!
