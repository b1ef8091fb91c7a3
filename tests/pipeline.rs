use libtwitch_rs::client::{
    after_error_body, after_target, begin_response, needs_diagnostic, request_headers, request_url,
    ApiError, DecodeError, ErrorBody, ErrorResponse, Method, Step, TwitchClient,
};
use libtwitch_rs::credentials::{ConfigError, CredentialSource, Credentials};

fn some(s: &str) -> Option<String> {
    Some(s.to_string())
}

fn decode_error(m: &str) -> DecodeError {
    DecodeError { message: m.to_string(), line: 1, column: 2 }
}

fn pair(a: &str, b: &str) -> (String, String) {
    (a.to_string(), b.to_string())
}

#[test]
fn url_prefixes_root() {
    assert_eq!(request_url("/games/top"), "https://api.twitch.tv/kraken/games/top");
    assert_eq!(request_url(""), "https://api.twitch.tv/kraken");
}

#[test]
fn headers_from_credentials() {
    let c = Credentials { client_id: some("cid"), token: some("tok") };
    let h = request_headers(&c).unwrap();
    assert_eq!(
        h,
        vec![
            pair("Accept", "application/vnd.twitchtv.v5+json"),
            pair("Client-ID", "cid"),
            pair("Authorization", "OAuth tok"),
        ]
    );
}

#[test]
fn headers_need_client_id() {
    let c = Credentials { client_id: None, token: None };
    assert!(matches!(request_headers(&c), Err(ApiError::Config(ConfigError::MissingClientId))));
}

#[test]
fn headers_need_token() {
    let c = Credentials { client_id: some("x"), token: None };
    assert!(matches!(request_headers(&c), Err(ApiError::Config(ConfigError::MissingToken))));
}

#[test]
fn client_builds_and_rotates_token() {
    let mut c = TwitchClient::with_credentials(Credentials { client_id: some("id"), token: None })
        .unwrap();
    assert!(matches!(
        c.build_request(Method::Get, "/x"),
        Err(ApiError::Config(ConfigError::MissingToken))
    ));
    c.set_oauth_token("fresh");
    assert_eq!(c.cred(), &Credentials { client_id: some("id"), token: some("fresh") });
    let q = c.build_request(Method::Delete, "/users/1").unwrap();
    assert_eq!(q.method, Method::Delete);
    assert_eq!(q.url, "https://api.twitch.tv/kraken/users/1");
    assert_eq!(q.headers[2], pair("Authorization", "OAuth fresh"));
}

#[test]
fn new_from_file_text() {
    let c = libtwitch_rs::new(CredentialSource::File("client_id = \"a\"\ntoken = \"b\"".to_string()))
        .unwrap();
    assert_eq!(c.cred(), &Credentials { client_id: some("a"), token: some("b") });
    assert!(matches!(
        libtwitch_rs::new(CredentialSource::File("=".to_string())),
        Err(ApiError::Config(ConfigError::Syntax(_)))
    ));
}

#[test]
fn empty_body_fails_whatever_the_status() {
    for status in [200u16, 204, 404, 500] {
        assert!(matches!(
            begin_response::<u32>(status, ""),
            Step::Done(Err(ApiError::EmptyResponse))
        ));
    }
}

#[test]
fn success_status_decodes_target() {
    assert!(matches!(begin_response::<u32>(200, "{}"), Step::DecodeTarget));
    assert!(matches!(begin_response::<u32>(299, "{}"), Step::DecodeTarget));
}

#[test]
fn failure_status_decodes_error_body() {
    assert!(matches!(begin_response::<u32>(404, "{}"), Step::DecodeErrorBody(None)));
    assert!(matches!(begin_response::<u32>(300, "{}"), Step::DecodeErrorBody(None)));
    assert!(matches!(begin_response::<u32>(199, "{}"), Step::DecodeErrorBody(None)));
}

#[test]
fn decoded_target_is_returned() {
    assert!(matches!(after_target::<u32>(Ok(7)), Step::Done(Ok(7))));
}

#[test]
fn failed_target_keeps_cause() {
    match after_target::<u32>(Err(decode_error("bad"))) {
        Step::DecodeErrorBody(Some(e)) => assert_eq!(e, decode_error("bad")),
        other => panic!("unexpected {:?}", other),
    }
}

#[test]
fn error_body_becomes_api_error_with_cause() {
    let body = ErrorBody { error: "Not Found".to_string(), status: 404, message: "no".to_string() };
    match after_error_body::<u32>(Some(decode_error("shape")), Ok(body)) {
        Err(ApiError::ApiError(r)) => assert_eq!(
            r,
            ErrorResponse {
                error: "Not Found".to_string(),
                status: 404,
                message: "no".to_string(),
                cause: Some(decode_error("shape")),
            }
        ),
        other => panic!("unexpected {:?}", other),
    }
}

#[test]
fn both_decodes_failing_gives_original_failure() {
    let r = after_error_body::<u32>(Some(decode_error("first")), Err(decode_error("second")));
    match &r {
        Err(ApiError::DecodeFailure(e)) => assert_eq!(e, &decode_error("first")),
        other => panic!("unexpected {:?}", other),
    }
    assert!(needs_diagnostic(r.as_ref().unwrap_err()));
}

#[test]
fn error_path_without_cause() {
    let r = after_error_body::<u32>(None, Err(decode_error("only")));
    assert!(matches!(r, Err(ApiError::DecodeFailure(ref e)) if e.message == "only"));
    assert!(!needs_diagnostic(&ApiError::EmptyResponse));
}

#[test]
fn error_body_without_earlier_failure_has_no_cause() {
    let body = ErrorBody { error: "Bad".to_string(), status: 400, message: "m".to_string() };
    match after_error_body::<u32>(None, Ok(body)) {
        Err(ApiError::ApiError(r)) => {
            assert_eq!(r.status, 400);
            assert_eq!(r.error, "Bad");
            assert_eq!(r.message, "m");
            assert_eq!(r.cause, None);
        }
        other => panic!("unexpected {:?}", other),
    }
}

#[test]
fn crate_root_reexports() {
    let c: libtwitch_rs::Credentials = libtwitch_rs::Credentials { client_id: None, token: None };
    let r: libtwitch_rs::TwitchResult<libtwitch_rs::TwitchClient> =
        libtwitch_rs::TwitchClient::with_credentials(c);
    assert!(r.is_ok());
}
