//! Session exchange and access-token issuance: the typed responses of the
//! two authentication endpoints, and the total mapping from their server
//! error codes onto the error taxonomy.
//!
//! The issuance endpoint is the call the credential manager wraps: a
//! successful issuance response is stamped with the current time and
//! becomes the cached credential.

use vstd::prelude::*;

use crate::client::AccessToken;
use crate::client::Client;
use crate::common::BUSY;
use crate::common::CommonResponse;
use crate::common::Error;
use crate::common::ErrorSpec;
use crate::common::SUCCESS;

verus! {

/// Typed response of the session-exchange endpoint: an opaque session key
/// and two user identifiers, beside the common error fields.
#[derive(Debug)]
pub struct Code2SessionResponse {
    pub open_id: String,
    pub session_key: String,
    pub union_id: String,
    pub common: CommonResponse,
}

/// Typed response of the issuance endpoint: the token string and its
/// validity window in seconds, beside the common error fields.
#[derive(Debug)]
pub struct AccessTokenResponse {
    pub access_token: String,
    pub expires_in: i64,
    pub common: CommonResponse,
}

/// The session-exchange endpoint's error mapping, for any nonzero code:
/// `-1` is `Busy`; `40029` blames the one-time `js_code`; `45011` is the
/// documented hundred-calls-a-minute quota; every other code passes
/// through unclassified with its message.
pub open spec fn spec_session_error(code: int, msg: Seq<char>) -> ErrorSpec {
    if code == BUSY {
        ErrorSpec::Busy
    } else if code == 40029 {
        ErrorSpec::InvalidArgument { field: "js_code"@, msg }
    } else if code == 45011 {
        ErrorSpec::RateLimited(100, "minute"@)
    } else {
        ErrorSpec::ServerError(code, msg)
    }
}

/// The issuance endpoint's error mapping, for any nonzero code: `-1` is
/// `Busy`; `40001`, `40002` and `40013` blame the secret, the grant type
/// and the application identifier respectively; every other code passes
/// through unclassified with its message.
pub open spec fn spec_issuance_error(code: int, msg: Seq<char>) -> ErrorSpec {
    if code == BUSY {
        ErrorSpec::Busy
    } else if code == 40001 {
        ErrorSpec::InvalidArgument { field: "secret"@, msg }
    } else if code == 40002 {
        ErrorSpec::InvalidArgument { field: "grant_type"@, msg }
    } else if code == 40013 {
        ErrorSpec::InvalidArgument { field: "app_id"@, msg }
    } else {
        ErrorSpec::ServerError(code, msg)
    }
}

/// Classifies a session-exchange response. Success (code `0`) hands the
/// response back unchanged; any other code yields exactly the error that
/// [`spec_session_error`] assigns to it.
pub fn code2session_result(resp: Code2SessionResponse) -> (r: Result<Code2SessionResponse, Error>)
    ensures
        resp.common.err_code == SUCCESS <==> r is Ok,
        r is Ok ==> r->Ok_0 == resp,
        r is Err ==> r->Err_0@ == spec_session_error(
            resp.common.err_code as int,
            resp.common.err_msg@,
        ),
{
    match resp.common.err_code {
        SUCCESS => Ok(resp),
        BUSY => Err(Error::Busy),
        40029 => Err(Error::InvalidArgument { field: "js_code".to_owned(), msg: resp.common.err_msg }),
        45011 => Err(Error::RateLimited(100, "minute".to_owned())),
        _ => Err(Error::ServerError(resp.common.err_code, resp.common.err_msg)),
    }
}

impl Client {
    /// Applies an issuance response to the cache. On success (code `0`)
    /// the new credential is stamped with `now` and the server-declared
    /// window, overwrites the slot wholesale, and is returned. On any
    /// other code the slot is left untouched and exactly the error that
    /// [`spec_issuance_error`] assigns to the code comes back: a failed
    /// refresh never evicts what is cached.
    pub fn store_issuance(&mut self, now: i64, resp: AccessTokenResponse) -> (r: Result<
        AccessToken,
        Error,
    >)
        ensures
            resp.common.err_code == SUCCESS <==> r is Ok,
            r is Ok ==> {
                &&& r->Ok_0 == (AccessToken {
                    access_token: resp.access_token,
                    expires_in: resp.expires_in,
                    dt: now,
                })
                &&& final(self).access_token == Some(r->Ok_0)
                &&& final(self).app_id == old(self).app_id
                &&& final(self).secret == old(self).secret
            },
            r is Err ==> {
                &&& *final(self) == *old(self)
                &&& r->Err_0@ == spec_issuance_error(
                    resp.common.err_code as int,
                    resp.common.err_msg@,
                )
            },
    {
        match resp.common.err_code {
            SUCCESS => {
                let token = AccessToken {
                    access_token: resp.access_token,
                    expires_in: resp.expires_in,
                    dt: now,
                };
                self.access_token = Some(token.clone());
                Ok(token)
            },
            BUSY => Err(Error::Busy),
            40001 => Err(Error::InvalidArgument { field: "secret".to_owned(), msg: resp.common.err_msg }),
            40002 => Err(Error::InvalidArgument { field: "grant_type".to_owned(), msg: resp.common.err_msg }),
            40013 => Err(Error::InvalidArgument { field: "app_id".to_owned(), msg: resp.common.err_msg }),
            _ => Err(Error::ServerError(resp.common.err_code, resp.common.err_msg)),
        }
    }
}

} // verus!
