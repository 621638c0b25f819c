use vstd::prelude::*;
use vstd::string::StringExecFns;

verus! {

/// What went wrong with a filesystem operation, as far as the response cares.
#[derive(Clone, Copy, Debug, PartialEq, Eq, Structural)]
pub enum IoKind {
    NotFound,
    PermissionDenied,
    Other,
}

/// Every failure the server can meet while answering a request or starting up.
#[derive(Clone, Copy, Debug, PartialEq, Eq, Structural)]
pub enum Error {
    /// Building an HTTP message failed.
    Http,
    /// The HTTP server itself failed.
    Hyper,
    /// A filesystem operation failed.
    Io(IoKind),
    /// The listening address could not be parsed.
    AddrParse,
    /// The request target has no absolute path.
    UriNotAbsolute,
    /// The decoded request path is not UTF-8 text.
    UriNotUtf8,
    /// The request path would leave the served root.
    UriOutsideRoot,
}

/// The HTTP status code that answers a request which failed with `e`.
pub open spec fn status_of(e: Error) -> u16 {
    match e {
        Error::UriNotAbsolute | Error::UriNotUtf8 | Error::UriOutsideRoot => 400,
        Error::Io(IoKind::NotFound) => 404,
        Error::Io(IoKind::PermissionDenied) => 403,
        _ => 500,
    }
}

impl Error {
    /// The status code that answers a request which failed this way.
    pub fn status(&self) -> (r: u16)
        ensures
            r == status_of(*self),
    {
        match self {
            Error::UriNotAbsolute | Error::UriNotUtf8 | Error::UriOutsideRoot => 400,
            Error::Io(IoKind::NotFound) => 404,
            Error::Io(IoKind::PermissionDenied) => 403,
            _ => 500,
        }
    }

    /// Whether the failure is the client's fault (a 4xx status).
    pub fn is_client_error(&self) -> (r: bool)
        ensures
            r == (400 <= status_of(*self) < 500),
    {
        let s = self.status();
        400 <= s && s < 500
    }
}

/// The one-line description of each failure.
pub open spec fn message_text(e: Error) -> Seq<char> {
    match e {
        Error::Http => "HTTP error"@,
        Error::Hyper => "Hyper error"@,
        Error::Io(_) => "I/O error"@,
        Error::AddrParse => "failed to parse IP address"@,
        Error::UriNotAbsolute => "requested URI is not an absolute path"@,
        Error::UriNotUtf8 => "requested URI is not UTF-8"@,
        Error::UriOutsideRoot => "requested URI leaves the served root"@,
    }
}

impl Error {
    /// A one-line description of the failure, for the server's log.
    pub fn message(&self) -> (r: &'static str)
        ensures
            r@ == message_text(*self),
    {
        match self {
            Error::Http => "HTTP error",
            Error::Hyper => "Hyper error",
            Error::Io(_) => "I/O error",
            Error::AddrParse => "failed to parse IP address",
            Error::UriNotAbsolute => "requested URI is not an absolute path",
            Error::UriNotUtf8 => "requested URI is not UTF-8",
            Error::UriOutsideRoot => "requested URI leaves the served root",
        }
    }
}

/// The log line for the `i`-th message of a cause chain.
pub open spec fn chain_line(chain: Seq<Seq<char>>, i: int) -> Seq<char> {
    if i == 0 {
        "error: "@ + chain[i]
    } else {
        "caused by: "@ + chain[i]
    }
}

/// The log lines that report a failure with its cause chain: the failure
/// itself first, then each underlying cause, outermost first.
pub fn log_error_chain(chain: &Vec<String>) -> (r: Vec<String>)
    ensures
        r@.len() == chain@.len(),
        forall|i: int| 0 <= i < chain@.len() ==> #[trigger] r@[i]@ == chain_line(chain@.map_values(|m: String| m@), i),
{
    let ghost msgs = chain@.map_values(|m: String| m@);
    let mut lines: Vec<String> = Vec::new();
    let mut i: usize = 0;
    while i < chain.len()
        invariant
            i <= chain@.len(),
            msgs == chain@.map_values(|m: String| m@),
            lines@.len() == i,
            forall|k: int| 0 <= k < i ==> #[trigger] lines@[k]@ == chain_line(msgs, k),
        decreases chain.len() - i,
    {
        let mut line = if i == 0 {
            "error: ".to_owned()
        } else {
            "caused by: ".to_owned()
        };
        line.append(chain[i].as_str());
        lines.push(line);
        i = i + 1;
    }
    lines
}

} // verus!
