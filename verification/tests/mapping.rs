use wxmini::AccessTokenResponse;
use wxmini::Client;
use wxmini::Code2SessionResponse;
use wxmini::CommonResponse;
use wxmini::Error;
use wxmini::SendRequest;
use wxmini::code2session_result;
use wxmini::send_result;

fn common(code: i32, msg: &str) -> CommonResponse {
    CommonResponse { err_code: code, err_msg: msg.to_string() }
}

fn session_resp(code: i32, msg: &str) -> Code2SessionResponse {
    Code2SessionResponse {
        open_id: String::new(),
        session_key: String::new(),
        union_id: String::new(),
        common: common(code, msg),
    }
}

fn issuance_resp(code: i32, msg: &str) -> AccessTokenResponse {
    AccessTokenResponse {
        access_token: String::new(),
        expires_in: 0,
        common: common(code, msg),
    }
}

#[test]
fn session_exchange_success_scenario() {
    let resp = Code2SessionResponse {
        open_id: "o1".to_string(),
        session_key: "sk1".to_string(),
        union_id: "u1".to_string(),
        common: common(0, ""),
    };
    let out = code2session_result(resp).unwrap();
    assert_eq!(out.open_id, "o1");
    assert_eq!(out.session_key, "sk1");
    assert_eq!(out.union_id, "u1");
}

#[test]
fn session_exchange_invalid_code_scenario() {
    let err = code2session_result(session_resp(40029, "invalid code")).unwrap_err();
    assert!(matches!(
        err,
        Error::InvalidArgument { ref field, ref msg } if field == "js_code" && msg == "invalid code"
    ));
}

#[test]
fn session_exchange_busy_and_rate_limit() {
    assert!(matches!(code2session_result(session_resp(-1, "busy")).unwrap_err(), Error::Busy));
    let err = code2session_result(session_resp(45011, "slow down")).unwrap_err();
    assert!(matches!(err, Error::RateLimited(100, ref w) if w == "minute"));
}

#[test]
fn session_exchange_unclassified_code_passes_through() {
    let err = code2session_result(session_resp(41008, "missing code")).unwrap_err();
    assert!(matches!(err, Error::ServerError(41008, ref m) if m == "missing code"));
}

#[test]
fn issuance_error_codes_blame_their_fields() {
    let mut client = Client::new("app".to_string(), "sec".to_string(), None);
    let cases = [
        (40001, "secret"),
        (40002, "grant_type"),
        (40013, "app_id"),
    ];
    for (code, field_name) in cases {
        let err = client.store_issuance(0, issuance_resp(code, "rejected")).unwrap_err();
        assert!(matches!(
            err,
            Error::InvalidArgument { ref field, ref msg } if field == field_name && msg == "rejected"
        ));
    }
    assert!(matches!(
        client.store_issuance(0, issuance_resp(-1, "busy")).unwrap_err(),
        Error::Busy
    ));
    let other = client.store_issuance(0, issuance_resp(41002, "no secret")).unwrap_err();
    assert!(matches!(other, Error::ServerError(41002, ref m) if m == "no secret"));
    assert!(client.cached_access_token(0).is_none());
}

#[test]
fn issuance_success_returns_stamped_credential() {
    let mut client = Client::new("app".to_string(), "sec".to_string(), None);
    let resp = AccessTokenResponse {
        access_token: "fresh-token".to_string(),
        expires_in: 7200,
        common: common(0, ""),
    };
    let tok = client.store_issuance(42, resp).unwrap();
    assert_eq!(tok.access_token, "fresh-token");
    assert_eq!(tok.expires_in, 7200);
    assert_eq!(tok.dt, 42);
}

#[test]
fn send_success_is_unit() {
    assert!(send_result(common(0, "")).is_ok());
}

#[test]
fn send_error_codes_blame_their_fields() {
    let cases = [
        (40037, "template_id"),
        (41028, "form_id"),
        (41029, "form_id"),
        (41030, "page"),
    ];
    for (code, field_name) in cases {
        let err = send_result(common(code, "bad value")).unwrap_err();
        assert!(matches!(
            err,
            Error::InvalidArgument { ref field, ref msg } if field == field_name && msg == "bad value"
        ));
    }
}

#[test]
fn send_busy_rate_limit_and_unclassified() {
    assert!(matches!(send_result(common(-1, "")).unwrap_err(), Error::Busy));
    let limited = send_result(common(45009, "quota")).unwrap_err();
    assert!(matches!(limited, Error::RateLimited(1_000_000, ref w) if w == "day"));
    let other = send_result(common(43101, "refused")).unwrap_err();
    assert!(matches!(other, Error::ServerError(43101, ref m) if m == "refused"));
}

#[test]
fn host_side_error_kinds_carry_their_messages() {
    let transport = Error::Transport("connect timed out".to_string());
    assert!(matches!(transport, Error::Transport(ref m) if m == "connect timed out"));
    let storage = Error::Storage("file missing".to_string());
    assert!(matches!(storage, Error::Storage(ref m) if m == "file missing"));
    let serde = Error::Serialization("bad body".to_string());
    assert!(matches!(serde, Error::Serialization(ref m) if m == "bad body"));
}

#[test]
fn send_request_carries_nested_data() {
    let req = SendRequest {
        to_user: "open-id".to_string(),
        template_id: "tpl".to_string(),
        page: Some("pages/index".to_string()),
        form_id: "form".to_string(),
        data: vec![(
            "keyword1".to_string(),
            vec![("value".to_string(), "hello".to_string())],
        )],
        emphasis_keyword: None,
    };
    assert_eq!(req.data.len(), 1);
    assert_eq!(req.data[0].0, "keyword1");
    assert_eq!(req.data[0].1[0].1, "hello");
    assert!(req.emphasis_keyword.is_none());
}
