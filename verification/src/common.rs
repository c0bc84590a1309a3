//! The error taxonomy, and the pair of fields every remote response carries.
//!
//! Every remote endpoint answers with a numeric error code and a message;
//! code `0` means success and code `-1` means the service is transiently
//! overloaded. Each endpoint additionally documents a closed set of codes
//! that blame a caller-supplied argument or a quota; everything else is an
//! unclassified server failure. Transport, storage and serialization
//! failures arise on the host side and are distinct kinds of their own.

use vstd::prelude::*;

verus! {

/// The server code that means success.
pub const SUCCESS: i32 = 0;

/// The server code that means "busy, try later".
pub const BUSY: i32 = -1;

/// The domain failure kinds. Remote-call mappings only ever produce the
/// first four; the last three are raised by the host around the library
/// (network, file store, response body that does not parse).
#[derive(Debug)]
pub enum Error {
    /// Transient server overload; the caller may retry later.
    Busy,
    /// A caller-supplied value was rejected; `field` names the argument.
    InvalidArgument { field: String, msg: String },
    /// Quota exceeded: at most the given number of calls per named window.
    RateLimited(i32, String),
    /// Unclassified remote failure, carrying the server's code and message.
    ServerError(i32, String),
    /// Connection-level failure between host and service.
    Transport(String),
    /// The persistence backend could not read or write the record.
    Storage(String),
    /// A response body did not deserialize.
    Serialization(String),
}

/// The mathematical shape of an [`Error`]: the same kinds over sequences
/// of characters and unbounded integers. Contracts speak of this form.
pub enum ErrorSpec {
    Busy,
    InvalidArgument { field: Seq<char>, msg: Seq<char> },
    RateLimited(int, Seq<char>),
    ServerError(int, Seq<char>),
    Transport(Seq<char>),
    Storage(Seq<char>),
    Serialization(Seq<char>),
}

impl View for Error {
    type V = ErrorSpec;

    open spec fn view(&self) -> ErrorSpec {
        match self {
            Error::Busy => ErrorSpec::Busy,
            Error::InvalidArgument { field, msg } => ErrorSpec::InvalidArgument {
                field: field@,
                msg: msg@,
            },
            Error::RateLimited(limit, window) => ErrorSpec::RateLimited(*limit as int, window@),
            Error::ServerError(code, msg) => ErrorSpec::ServerError(*code as int, msg@),
            Error::Transport(msg) => ErrorSpec::Transport(msg@),
            Error::Storage(msg) => ErrorSpec::Storage(msg@),
            Error::Serialization(msg) => ErrorSpec::Serialization(msg@),
        }
    }
}

/// The two fields common to every remote response.
#[derive(Debug)]
pub struct CommonResponse {
    pub err_code: i32,
    pub err_msg: String,
}

} // verus!
