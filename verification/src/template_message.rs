//! Templated message delivery: the request payload and the total mapping
//! from the send endpoint's server error codes onto the error taxonomy.
//!
//! The send operation is the one consumer of the credential manager: the
//! host obtains a fresh token, posts the payload with it, and classifies
//! the common error fields of the answer here.

use vstd::prelude::*;

use crate::common::BUSY;
use crate::common::CommonResponse;
use crate::common::Error;
use crate::common::ErrorSpec;
use crate::common::SUCCESS;

verus! {

/// Payload of a templated message: the recipient, the template, an
/// optional page to open, the form identifier that authorizes the send,
/// the nested key-value data that fills the template, and an optional
/// keyword to emphasize.
pub struct SendRequest {
    pub to_user: String,
    pub template_id: String,
    pub page: Option<String>,
    pub form_id: String,
    pub data: Vec<(String, Vec<(String, String)>)>,
    pub emphasis_keyword: Option<String>,
}

/// The send endpoint's error mapping, for any nonzero code: `-1` is
/// `Busy`; `40037` blames the template identifier; `41028` and `41029`
/// blame the form identifier; `41030` blames the page; `45009` is the
/// documented million-calls-a-day quota; every other code passes through
/// unclassified with its message.
pub open spec fn spec_send_error(code: int, msg: Seq<char>) -> ErrorSpec {
    if code == BUSY {
        ErrorSpec::Busy
    } else if code == 40037 {
        ErrorSpec::InvalidArgument { field: "template_id"@, msg }
    } else if code == 41028 || code == 41029 {
        ErrorSpec::InvalidArgument { field: "form_id"@, msg }
    } else if code == 41030 {
        ErrorSpec::InvalidArgument { field: "page"@, msg }
    } else if code == 45009 {
        ErrorSpec::RateLimited(1_000_000, "day"@)
    } else {
        ErrorSpec::ServerError(code, msg)
    }
}

/// Classifies a send response, which carries nothing beyond the common
/// error fields. Success (code `0`) yields the unit value; any other code
/// yields exactly the error that [`spec_send_error`] assigns to it.
pub fn send_result(resp: CommonResponse) -> (r: Result<(), Error>)
    ensures
        resp.err_code == SUCCESS <==> r is Ok,
        r is Err ==> r->Err_0@ == spec_send_error(resp.err_code as int, resp.err_msg@),
{
    match resp.err_code {
        SUCCESS => Ok(()),
        BUSY => Err(Error::Busy),
        40037 => Err(Error::InvalidArgument { field: "template_id".to_owned(), msg: resp.err_msg }),
        41028 => Err(Error::InvalidArgument { field: "form_id".to_owned(), msg: resp.err_msg }),
        41029 => Err(Error::InvalidArgument { field: "form_id".to_owned(), msg: resp.err_msg }),
        41030 => Err(Error::InvalidArgument { field: "page".to_owned(), msg: resp.err_msg }),
        45009 => Err(Error::RateLimited(1_000_000, "day".to_owned())),
        _ => Err(Error::ServerError(resp.err_code, resp.err_msg)),
    }
}

} // verus!
