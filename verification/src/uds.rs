//! The decisions of the Unix domain socket connector: which destinations it
//! accepts, and what a connection attempt does when it is polled.
//!
//! The socket work itself (starting a connection and polling it) is done by
//! the caller; this module says when to start it and what to report.
use vstd::prelude::*;

verus! {

/// Why a connection over a Unix domain socket failed.
#[derive(Debug, Clone, PartialEq)]
pub enum ConnectError {
    /// The destination's scheme is not `unix`.
    InvalidUrlScheme,
    /// A connection attempt was polled before it was started.
    InvalidConnectState,
    /// The destination's host does not name a socket path.
    InvalidUdsPath(String),
    /// The connection could not be made; the text describes why.
    Connect(String),
}

/// Where a connection attempt stands.
#[derive(Debug, Clone, PartialEq)]
pub enum ConnectState {
    /// A socket path is known and no connection was started yet.
    Initialized(String),
    /// A connection to the socket is under way.
    Connecting,
    /// The attempt failed before a connection could be started.
    Error(ConnectError),
}

/// What polling a connection attempt comes to.
#[derive(Debug, Clone, PartialEq)]
pub enum PollStep {
    /// Poll the connection that is under way and report what it reports.
    PollConnection,
    /// Fail with this error.
    Fail(ConnectError),
}

/// A connection attempt over a Unix domain socket.
pub struct ConnectFuture {
    state: ConnectState,
}

impl View for ConnectFuture {
    type V = ConnectState;

    closed spec fn view(&self) -> ConnectState {
        self.state
    }
}

/// The `Debug` rendering of a string: quoted, with std's escapes.
pub uninterp spec fn str_debug(s: Seq<char>) -> Seq<char>;

/// `<str as Debug>::fmt` through `format!("{:?}", s)`: std renders the string
/// quoted, with its escapes; the text depends on the string alone.
#[verifier::external_body]
fn debug_str(s: &str) -> (r: String)
    ensures
        r@ == str_debug(s@),
{
    format!("{:?}", s)
}

/// The `Debug` rendering of a connection error: the variant's name, and for a
/// variant with a text, that text rendered as a string in parentheses.
pub open spec fn debug_text(err: ConnectError) -> Seq<char> {
    match err {
        ConnectError::InvalidUrlScheme => "InvalidUrlScheme"@,
        ConnectError::InvalidConnectState => "InvalidConnectState"@,
        ConnectError::InvalidUdsPath(p) => "InvalidUdsPath("@ + str_debug(p@) + ")"@,
        ConnectError::Connect(t) => "Connect("@ + str_debug(t@) + ")"@,
    }
}

/// The text of the `Connect` error that reports a failed attempt: the `Debug`
/// rendering of the error it failed with.
pub fn describe_error(err: &ConnectError) -> (r: String)
    ensures
        r@ == debug_text(*err),
{
    match err {
        ConnectError::InvalidUrlScheme => "InvalidUrlScheme".to_owned(),
        ConnectError::InvalidConnectState => "InvalidConnectState".to_owned(),
        ConnectError::InvalidUdsPath(p) => {
            let mut text = "InvalidUdsPath(".to_owned();
            text.push_str(debug_str(p.as_str()).as_str());
            text.push_str(")");
            text
        },
        ConnectError::Connect(t) => {
            let mut text = "Connect(".to_owned();
            text.push_str(debug_str(t.as_str()).as_str());
            text.push_str(")");
            text
        },
    }
}

/// The state of an attempt made from `state`: a known socket path starts a
/// connection to it; any other state is kept.
pub open spec fn started(state: ConnectState) -> ConnectState {
    match state {
        ConnectState::Initialized(_) => ConnectState::Connecting,
        _ => state,
    }
}

/// The socket path that an attempt made from `state` starts connecting to.
pub open spec fn started_path(state: ConnectState) -> Option<String> {
    match state {
        ConnectState::Initialized(path) => Some(path),
        _ => None,
    }
}

impl ConnectFuture {
    /// An attempt made from `state`; when `state` knows a socket path, the
    /// returned path is the one the caller starts connecting to.
    pub fn new(state: ConnectState) -> (r: (ConnectFuture, Option<String>))
        ensures
            r.0@ == started(state),
            r.1 == started_path(state),
    {
        match state {
            ConnectState::Initialized(path) => (ConnectFuture { state: ConnectState::Connecting }, Some(path)),
            _ => (ConnectFuture { state }, None),
        }
    }

    /// What polling this attempt comes to: an attempt that never started is
    /// an invalid state, a failed one reports its error as a `Connect` error,
    /// and one under way polls the connection.
    pub fn poll_step(&self) -> (r: PollStep)
        ensures
            match self@ {
                ConnectState::Initialized(_) => r == PollStep::Fail(ConnectError::InvalidConnectState),
                ConnectState::Error(e) => r matches PollStep::Fail(ConnectError::Connect(t))
                    && t@ == debug_text(e),
                ConnectState::Connecting => r == PollStep::PollConnection,
            },
    {
        match &self.state {
            ConnectState::Initialized(_) => PollStep::Fail(ConnectError::InvalidConnectState),
            ConnectState::Error(err) => PollStep::Fail(ConnectError::Connect(describe_error(err))),
            ConnectState::Connecting => PollStep::PollConnection,
        }
    }
}

/// Whether `scheme` is the `unix` scheme.
pub fn is_unix_scheme(scheme: &str) -> (r: bool)
    ensures
        r == (scheme@ == "unix"@),
{
    let given = scheme.to_owned();
    let unix = "unix".to_owned();
    given == unix
}

/// A connector to Unix domain sockets.
pub struct UnixConnector;

impl UnixConnector {
    /// Starts a connection to the destination with scheme `scheme`, whose host
    /// gives the socket path `uds_path` (or the error of finding it; it is
    /// consulted only for the `unix` scheme). Any other scheme is an
    /// `InvalidUrlScheme` error. The returned path is the one the caller starts
    /// connecting to.
    pub fn connect(&self, scheme: &str, uds_path: Result<String, ConnectError>) -> (r: (ConnectFuture, Option<String>))
        ensures
            scheme@ != "unix"@ ==> r.0@ == ConnectState::Error(ConnectError::InvalidUrlScheme) && r.1 is None,
            scheme@ == "unix"@ ==> match uds_path {
                Ok(p) => r.0@ == ConnectState::Connecting && r.1 == Some(p),
                Err(e) => r.0@ == ConnectState::Error(e) && r.1 is None,
            },
    {
        let state = if !is_unix_scheme(scheme) {
            ConnectState::Error(ConnectError::InvalidUrlScheme)
        } else {
            match uds_path {
                Ok(path) => ConnectState::Initialized(path),
                Err(err) => ConnectState::Error(err),
            }
        };
        ConnectFuture::new(state)
    }
}

/// An attempt that `ConnectFuture::new` made never polls to an invalid state:
/// whatever state it was made from, its first poll either polls the connection
/// or reports the error it was made with.
pub proof fn law_started_attempt_is_never_invalid(state: ConnectState)
    ensures
        !(started(state) is Initialized),
        started(state) is Error ==> started(state) == state,
{
}

} // verus!
