//! A minimal diagnostic HTTP server library.
//!
//! The crate holds the protocol logic of a server that accepts one
//! connection at a time, collects the request's header lines, frames and
//! assembles its body (`Content-Length` or chunked transfer encoding), and
//! answers with a fixed, operator-configured status line and no body.
//!
//! [`status`] is the closed registry of status codes and reason phrases.
//! [`framing`] decides how a request's body is framed and parses the
//! numerals that framing needs. [`conn`] is the per-connection state
//! machine: the caller performs each requested I/O action on the stream and
//! reports its outcome back as an event; every decision in between is made
//! here and verified.
pub mod conn;
pub mod framing;
pub mod status;
