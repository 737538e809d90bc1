//! Decoding of the multiplexed log stream that the Docker engine returns for
//! `GET containers/{id}/logs`.
//!
//! Each frame carries an eight-byte header and a payload:
//!
//! ```text
//! 01 00 00 00 00 00 00 1f 52 6f 73 65 73 20 61 72  65 ...
//! │  ─────┬── ─────┬─────  R  o  s  e  s     a  r   e ...
//! │       │        │
//! └stdout │        │
//!         │        └ 0x0000001f = log message is 31 bytes
//!       unused
//! ```
//!
//! The stream type and the unused bytes are ignored; the payload of each frame
//! is decoded as UTF-8 and the decoded lines are concatenated.
use vstd::prelude::*;
use vstd::utf8::{decode_utf8, valid_utf8};

verus! {

// ---------------------------------------------------------------------------
// Mathematical model of the stream
// ---------------------------------------------------------------------------

/// Size of a frame header: stream type, three unused bytes, a big-endian length.
pub const HEADER_LEN: usize = 8;

/// The big-endian unsigned value of the first four bytes of `s`.
pub open spec fn be_u32(s: Seq<u8>) -> nat
    recommends
        s.len() >= 4,
{
    (s[0] as nat) * 16777216 + (s[1] as nat) * 65536 + (s[2] as nat) * 256 + (s[3] as nat)
}

/// The payload length announced by the header at the start of `s`.
pub open spec fn frame_len(s: Seq<u8>) -> nat
    recommends
        s.len() >= 8,
{
    be_u32(s.subrange(4, 8))
}

/// True when `s` starts with a whole frame: a header and the payload it announces.
pub open spec fn frame_complete(s: Seq<u8>) -> bool {
    s.len() >= 8 && 8 + frame_len(s) <= s.len()
}

/// The payload of the frame at the start of `s`.
pub open spec fn frame_payload(s: Seq<u8>) -> Seq<u8>
    recommends
        frame_complete(s),
{
    s.subrange(8, 8 + frame_len(s) as int)
}

/// What follows the frame at the start of `s`.
pub open spec fn frame_rest(s: Seq<u8>) -> Seq<u8>
    recommends
        frame_complete(s),
{
    s.subrange(8 + frame_len(s) as int, s.len() as int)
}

/// The streams on which the decoder runs to its end: every frame it reaches is
/// whole. It stops at the first payload that is not UTF-8, so what follows
/// such a payload may be anything.
pub open spec fn logs_readable(s: Seq<u8>) -> bool
    decreases s.len(),
{
    if s.len() == 0 {
        true
    } else if !frame_complete(s) {
        false
    } else if !valid_utf8(frame_payload(s)) {
        true
    } else {
        logs_readable(frame_rest(s))
    }
}

/// The first payload of a stream that is not UTF-8, if any; the decoder stops
/// there.
pub open spec fn first_bad_payload(s: Seq<u8>) -> Option<Seq<u8>>
    decreases s.len(),
{
    if s.len() == 0 {
        None
    } else if !frame_complete(s) {
        None
    } else if !valid_utf8(frame_payload(s)) {
        Some(frame_payload(s))
    } else {
        first_bad_payload(frame_rest(s))
    }
}

/// The decoded logs of a stream: the concatenation of the decoded payloads, or
/// `None` when some payload is not UTF-8.
pub open spec fn decoded_logs(s: Seq<u8>) -> Option<Seq<char>>
    decreases s.len(),
{
    if s.len() == 0 {
        Some(Seq::empty())
    } else if !frame_complete(s) {
        None
    } else if !valid_utf8(frame_payload(s)) {
        None
    } else {
        match decoded_logs(frame_rest(s)) {
            Some(rest) => Some(decode_utf8(frame_payload(s)) + rest),
            None => None,
        }
    }
}

// ---------------------------------------------------------------------------
// Laws of the stream
// ---------------------------------------------------------------------------

proof fn lemma_frame_of_concat(a: Seq<u8>, b: Seq<u8>)
    requires
        frame_complete(a),
    ensures
        frame_complete(a + b),
        frame_len(a + b) == frame_len(a),
        frame_payload(a + b) == frame_payload(a),
        frame_rest(a + b) == frame_rest(a) + b,
{
    assert((a + b).subrange(4, 8) =~= a.subrange(4, 8));
    assert(frame_payload(a + b) =~= frame_payload(a));
    assert(frame_rest(a + b) =~= frame_rest(a) + b);
}

/// Logs are decoded frame by frame: decoding two streams written one after the
/// other gives the first one's logs followed by the second one's, and the
/// joined stream is readable when the first decodes and the second is readable.
pub proof fn law_decode_concat(a: Seq<u8>, b: Seq<u8>)
    requires
        decoded_logs(a) is Some,
    ensures
        decoded_logs(a + b) == logs_after(decoded_logs(a)->0, decoded_logs(b)),
        logs_readable(b) ==> logs_readable(a + b),
    decreases a.len(),
{
    if a.len() == 0 {
        assert(a + b =~= b);
        match decoded_logs(b) {
            Some(d) => {
                assert(Seq::<char>::empty() + d =~= d);
            },
            None => {},
        }
    } else {
        lemma_frame_of_concat(a, b);
        let rest = frame_rest(a);
        law_decode_concat(rest, b);
        let p = decode_utf8(frame_payload(a));
        match decoded_logs(b) {
            Some(d) => {
                let r = decoded_logs(rest)->0;
                assert(p + (r + d) =~= (p + r) + d);
            },
            None => {},
        }
    }
}

/// A single frame decodes to exactly the UTF-8 decoding of its whole
/// payload: the eight header bytes announce `p.len()` bytes in their last four
/// (big-endian), and all of `p` is decoded.
pub proof fn law_single_frame(header: Seq<u8>, p: Seq<u8>)
    requires
        header.len() == 8,
        be_u32(header.subrange(4, 8)) == p.len(),
    ensures
        logs_readable(header + p),
        valid_utf8(p) ==> decoded_logs(header + p) == Some(decode_utf8(p)),
        !valid_utf8(p) ==> decoded_logs(header + p) is None && first_bad_payload(header + p) == Some(p),
{
    let s = header + p;
    assert(s.subrange(4, 8) =~= header.subrange(4, 8));
    assert(frame_payload(s) =~= p);
    assert(frame_rest(s) =~= Seq::<u8>::empty());
    assert(frame_complete(s));
    assert(logs_readable(frame_rest(s)));
    assert(decoded_logs(frame_rest(s)) == Some(Seq::<char>::empty()));
    if valid_utf8(p) {
        assert(decode_utf8(p) + Seq::<char>::empty() =~= decode_utf8(p));
    }
}

/// Only the length field of a header matters: two streams that differ only in
/// the stream type and unused bytes of their first header decode alike.
pub proof fn law_stream_type_ignored(s: Seq<u8>, t: Seq<u8>)
    requires
        s.len() == t.len(),
        s.len() >= 8,
        s.subrange(4, s.len() as int) == t.subrange(4, t.len() as int),
    ensures
        decoded_logs(s) == decoded_logs(t),
        logs_readable(s) == logs_readable(t),
{
    assert(s.subrange(4, 8) =~= s.subrange(4, s.len() as int).subrange(0, 4));
    assert(t.subrange(4, 8) =~= t.subrange(4, t.len() as int).subrange(0, 4));
    assert(frame_len(s) == frame_len(t));
    if frame_complete(s) {
        assert(frame_payload(s) =~= s.subrange(4, s.len() as int).subrange(4, 4 + frame_len(s) as int));
        assert(frame_payload(t) =~= t.subrange(4, t.len() as int).subrange(4, 4 + frame_len(t) as int));
        assert(frame_rest(s) =~= s.subrange(4, s.len() as int).subrange(4 + frame_len(s) as int, s.len() - 4));
        assert(frame_rest(t) =~= t.subrange(4, t.len() as int).subrange(4 + frame_len(t) as int, t.len() - 4));
    }
}

// ---------------------------------------------------------------------------
// Trusted items
// ---------------------------------------------------------------------------

/// The error type of `core::str::from_utf8`, carried through unread.
#[verifier::external_type_specification]
#[verifier::external_body]
pub struct ExUtf8Error(core::str::Utf8Error);

/// The error that `core::str::from_utf8` gives on the bytes `v` when they
/// are not UTF-8 (where valid UTF-8 ends, and how long the bad sequence is).
pub uninterp spec fn utf8_error(v: Seq<u8>) -> core::str::Utf8Error;

/// `core::str::from_utf8`: std documents that it succeeds exactly on valid
/// UTF-8, and then the string's characters are the UTF-8 decoding of the bytes;
/// otherwise its error is determined by the bytes alone.
pub assume_specification[ core::str::from_utf8 ](v: &[u8]) -> (r: Result<&str, core::str::Utf8Error>)
    ensures
        r is Ok <==> valid_utf8(v@),
        r matches Ok(s) ==> s@ == decode_utf8(v@),
        r matches Err(e) ==> e == utf8_error(v@),
;

/// `String::push_str`: std documents that it appends the slice to the string.
pub assume_specification[ String::push_str ](s: &mut String, string: &str)
    ensures
        final(s)@ == old(s)@ + string@,
;

/// `bytes::Buf::get_u32_be` on a cursor at the start of `header`. The crate
/// documents it as the big-endian value of the next four bytes; it panics with
/// fewer than four, which `requires` leaves out.
#[verifier::external_body]
fn get_u32_be(header: &[u8]) -> (r: u32)
    requires
        header@.len() >= 4,
    ensures
        r == be_u32(header@),
{
    bytes::Buf::get_u32_be(&mut std::io::Cursor::new(header))
}

// ---------------------------------------------------------------------------
// Decoder
// ---------------------------------------------------------------------------

/// Why a log stream could not be decoded.
#[derive(Debug)]
pub enum LogsError {
    /// A payload is not valid UTF-8.
    Utf8(core::str::Utf8Error),
}

/// A read position in a log stream.
pub struct LogBuf<'a> {
    bytes: &'a [u8],
    pos: usize,
}

impl<'a> LogBuf<'a> {
    #[verifier::type_invariant]
    spec fn inv(self) -> bool {
        self.pos <= self.bytes@.len()
    }
}

impl<'a> View for LogBuf<'a> {
    type V = Seq<u8>;

    /// The bytes that remain to be read.
    closed spec fn view(&self) -> Seq<u8> {
        self.bytes@.subrange(self.pos as int, self.bytes@.len() as int)
    }
}

impl<'a> LogBuf<'a> {
    /// A buffer positioned at the start of `bytes`.
    pub fn new(bytes: &'a [u8]) -> (r: LogBuf<'a>)
        ensures
            r@ == bytes@,
    {
        let r = LogBuf { bytes, pos: 0 };
        assert(r@ =~= bytes@);
        r
    }

    /// Whether any byte remains.
    pub fn has_remaining(&self) -> (r: bool)
        ensures
            r == (self@.len() > 0),
    {
        proof {
            use_type_invariant(self);
        }
        self.pos < self.bytes.len()
    }
}

/// Reads one frame: skips the stream type and the unused bytes, reads the
/// payload length, and decodes the payload. On success the buffer moves past
/// the frame; on an invalid payload it stays just past the header.
pub fn read_line(buf: &mut LogBuf) -> (r: Result<String, LogsError>)
    requires
        frame_complete(old(buf)@),
    ensures
        match r {
            Ok(line) => {
                &&& valid_utf8(frame_payload(old(buf)@))
                &&& line@ == decode_utf8(frame_payload(old(buf)@))
                &&& final(buf)@ == frame_rest(old(buf)@)
            },
            Err(LogsError::Utf8(e)) => {
                &&& !valid_utf8(frame_payload(old(buf)@))
                &&& e == utf8_error(frame_payload(old(buf)@))
                &&& final(buf)@ == old(buf)@.subrange(8, old(buf)@.len() as int)
            },
        },
{
    proof {
        use_type_invariant(&*buf);
    }
    let ghost s = buf@;
    let start = buf.pos;
    let bytes = buf.bytes;
    let total = bytes.len();
    assert(s.len() == total - start);
    let len_at: usize = start + 4;
    let body_start: usize = start + HEADER_LEN;
    let header = &bytes[len_at..body_start];
    assert(header@ =~= s.subrange(4, 8));
    let len = get_u32_be(header) as usize;
    assert(len == frame_len(s));
    buf.pos = body_start;
    let payload = &bytes[body_start..body_start + len];
    assert(payload@ =~= frame_payload(s));
    match core::str::from_utf8(payload) {
        Ok(text) => {
            buf.pos = body_start + len;
            assert(buf@ =~= frame_rest(s));
            Ok(text.to_owned())
        },
        Err(e) => {
            assert(buf@ =~= s.subrange(8, s.len() as int));
            Err(LogsError::Utf8(e))
        },
    }
}

/// The decoded logs of a stream that is still to be read, after `prefix` has
/// been decoded already.
pub open spec fn logs_after(prefix: Seq<char>, rest: Option<Seq<char>>) -> Option<Seq<char>> {
    match rest {
        Some(r) => Some(prefix + r),
        None => None,
    }
}

/// Decodes a whole log stream: reads frames until none remains and
/// concatenates their decoded payloads; stops at the first payload that is not
/// UTF-8 and returns its error.
pub fn decode_logs(bytes: &[u8]) -> (r: Result<String, LogsError>)
    requires
        logs_readable(bytes@),
    ensures
        r is Ok <==> decoded_logs(bytes@) is Some,
        r matches Ok(logs) ==> decoded_logs(bytes@) == Some(logs@),
        r matches Err(LogsError::Utf8(e)) ==> first_bad_payload(bytes@) matches Some(p)
            && e == utf8_error(p),
{
    let mut buf = LogBuf::new(bytes);
    let mut logs = String::new();
    proof {
        assert(logs_after(logs@, decoded_logs(buf@)) == decoded_logs(bytes@)) by {
            match decoded_logs(bytes@) {
                Some(d) => {
                    assert(logs@ + d =~= d);
                },
                None => {},
            }
        }
    }
    while buf.has_remaining()
        invariant
            logs_readable(buf@),
            logs_after(logs@, decoded_logs(buf@)) == decoded_logs(bytes@),
            first_bad_payload(buf@) == first_bad_payload(bytes@),
        decreases buf@.len(),
    {
        let ghost before = buf@;
        let ghost done = logs@;
        match read_line(&mut buf) {
            Err(e) => {
                return Err(e);
            },
            Ok(line) => {
                logs.push_str(line.as_str());
                proof {
                    match decoded_logs(buf@) {
                        Some(rest) => {
                            assert(done + (line@ + rest) =~= (done + line@) + rest);
                        },
                        None => {},
                    }
                }
            },
        }
    }
    proof {
        assert(buf@.len() == 0);
        assert(logs@ + Seq::<char>::empty() =~= logs@);
    }
    Ok(logs)
}

/// Whether the decoder runs to the end of `bytes`, so that `decode_logs` may be
/// called on it.
pub fn logs_stream_readable(bytes: &[u8]) -> (r: bool)
    ensures
        r == logs_readable(bytes@),
{
    let n = bytes.len();
    let mut pos: usize = 0;
    assert(bytes@.subrange(0, n as int) =~= bytes@);
    while pos < n
        invariant
            pos <= n,
            n == bytes@.len(),
            logs_readable(bytes@) == logs_readable(bytes@.subrange(pos as int, n as int)),
        decreases n - pos,
    {
        let ghost s = bytes@.subrange(pos as int, n as int);
        if n - pos < HEADER_LEN {
            return false;
        }
        let header = &bytes[pos + 4..pos + HEADER_LEN];
        assert(header@ =~= s.subrange(4, 8));
        let len = get_u32_be(header) as usize;
        assert(len == frame_len(s));
        if n - pos - HEADER_LEN < len {
            return false;
        }
        let body_start: usize = pos + HEADER_LEN;
        let payload = &bytes[body_start..body_start + len];
        assert(payload@ =~= frame_payload(s));
        if core::str::from_utf8(payload).is_err() {
            return true;
        }
        pos = body_start + len;
        assert(frame_rest(s) =~= bytes@.subrange(pos as int, n as int));
    }
    true
}

/// The request for a container's logs: `GET` of `path` with the query
/// parameters `query`.
pub struct LogsRequest {
    pub path: String,
    pub query: Vec<(String, String)>,
}

/// The logs request for container `id`: both output streams of it.
pub fn logs_request(id: &str) -> (r: LogsRequest)
    ensures
        r.path@ == "containers/"@ + id@ + "/logs"@,
        r.query@.len() == 2,
        r.query@[0].0@ == "stdout"@,
        r.query@[0].1@ == "true"@,
        r.query@[1].0@ == "stderr"@,
        r.query@[1].1@ == "true"@,
{
    let mut path = "containers/".to_owned();
    path.push_str(id);
    path.push_str("/logs");
    let mut query: Vec<(String, String)> = Vec::new();
    query.push(("stdout".to_owned(), "true".to_owned()));
    query.push(("stderr".to_owned(), "true".to_owned()));
    LogsRequest { path, query }
}

/// What the logs request yields: no body gives no logs; a body is decoded.
pub fn logs_from_body(body: Option<&[u8]>) -> (r: Result<Option<String>, LogsError>)
    requires
        body matches Some(b) ==> logs_readable(b@),
    ensures
        match body {
            None => r matches Ok(None),
            Some(b) => {
                &&& r is Err <==> decoded_logs(b@) is None
                &&& r matches Ok(Some(logs)) ==> decoded_logs(b@) == Some(logs@)
                &&& r matches Err(LogsError::Utf8(e)) ==> first_bad_payload(b@) matches Some(p)
                    && e == utf8_error(p)
                &&& !(r matches Ok(None))
            },
        },
{
    match body {
        None => Ok(None),
        Some(b) => match decode_logs(b) {
            Ok(logs) => Ok(Some(logs)),
            Err(e) => Err(e),
        },
    }
}

} // verus!
