//! The authenticated client and the request/response pipeline.
use vstd::prelude::*;
use crate::credentials::{
    ConfigError, CredentialSource, Credentials, client_id_key, file_entry, opt_view, or_empty,
    token_key, toml_parses,
};

verus! {

#[verifier::external_type_specification]
#[verifier::external_body]
pub struct ExHttpClient(reqwest::Client);

#[verifier::external_type_specification]
#[verifier::external_body]
pub struct ExHttpError(reqwest::Error);

/// Relies on `reqwest::ClientBuilder::build` with rustls: it either gives a
/// client or reports why the TLS backend could not be set up.
#[verifier::external_body]
fn http_client() -> (r: Result<reqwest::Client, reqwest::Error>) {
    reqwest::Client::builder().use_rustls_tls().build()
}

/// A parse error of a response body: what went wrong and where.
#[derive(Debug, Clone, PartialEq, Eq)]
pub struct DecodeError {
    pub message: String,
    pub line: usize,
    pub column: usize,
}

/// The error object that the API sends in place of a result.
#[derive(Debug, Clone, PartialEq, Eq)]
pub struct ErrorBody {
    pub error: String,
    pub status: u16,
    pub message: String,
}

/// A structured error reported by the API, with the decode failure of the
/// expected shape where that was tried first.
#[derive(Debug, Clone, PartialEq, Eq)]
pub struct ErrorResponse {
    pub error: String,
    pub status: u16,
    pub message: String,
    pub cause: Option<DecodeError>,
}

/// Why a call did not produce its result.
#[derive(Debug)]
pub enum ApiError {
    /// The HTTP exchange could not complete.
    TransportFailure(reqwest::Error),
    /// The response had no body.
    EmptyResponse,
    /// The body is neither the expected shape nor an error object.
    DecodeFailure(DecodeError),
    /// The API answered with an error object.
    ApiError(ErrorResponse),
    /// The client is not configured for authenticated calls.
    Config(ConfigError),
}

/// Results of the API calls.
pub type TwitchResult<R> = Result<R, ApiError>;

/// The HTTP method of a request.
#[derive(Debug, Clone, Copy, PartialEq, Eq, Structural)]
pub enum Method {
    Get,
    Post,
    Put,
    Delete,
}

/// A request ready to be sent: method, absolute URL and headers as
/// `(name, value)` pairs.
#[derive(Debug, Clone, PartialEq, Eq)]
pub struct Request {
    pub method: Method,
    pub url: String,
    pub headers: Vec<(String, String)>,
}

/// The absolute URL of an API path.
pub open spec fn api_url(path: Seq<char>) -> Seq<char> {
    "https://api.twitch.tv/kraken"@ + path
}

/// The headers of an authenticated request, as `(name, value)` pairs.
pub open spec fn auth_headers(client_id: Seq<char>, token: Seq<char>) -> Seq<(Seq<char>, Seq<char>)> {
    seq![
        ("Accept"@, "application/vnd.twitchtv.v5+json"@),
        ("Client-ID"@, client_id),
        ("Authorization"@, "OAuth "@ + token),
    ]
}

/// The view of a list of header pairs.
pub open spec fn headers_view(h: Seq<(String, String)>) -> Seq<(Seq<char>, Seq<char>)> {
    h.map_values(|p: (String, String)| (p.0@, p.1@))
}

/// Whether an HTTP status is a success (2xx).
pub open spec fn is_success(status: u16) -> bool {
    200 <= status < 300
}

/// Builds the absolute URL of an API path.
pub fn request_url(path: &str) -> (r: String)
    ensures
        r@ == api_url(path@),
{
    let mut url = String::from_str("https://api.twitch.tv/kraken");
    url.append(path);
    url
}

/// The headers that authenticate a request with `cred`. Both fields must be
/// present; the client identifier is checked first.
pub fn request_headers(cred: &Credentials) -> (r: TwitchResult<Vec<(String, String)>>)
    ensures
        cred.client_id is None ==> r matches Err(ApiError::Config(ConfigError::MissingClientId)),
        cred.client_id is Some && cred.token is None ==> r matches Err(
            ApiError::Config(ConfigError::MissingToken),
        ),
        cred.client_id is Some && cred.token is Some ==> (r matches Ok(h) && headers_view(h@)
            == auth_headers(cred.client_id.unwrap()@, cred.token.unwrap()@)),
{
    let id = match &cred.client_id {
        Some(id) => id,
        None => return Err(ApiError::Config(ConfigError::MissingClientId)),
    };
    let token = match &cred.token {
        Some(token) => token,
        None => return Err(ApiError::Config(ConfigError::MissingToken)),
    };
    let mut auth = String::from_str("OAuth ");
    auth.append(token.as_str());
    let mut headers: Vec<(String, String)> = Vec::new();
    headers.push((String::from_str("Accept"), String::from_str("application/vnd.twitchtv.v5+json")));
    headers.push((String::from_str("Client-ID"), id.clone()));
    headers.push((String::from_str("Authorization"), auth));
    assert(headers_view(headers@) =~= auth_headers(id@, token@));
    Ok(headers)
}

/// What the pipeline does next with a response body.
#[derive(Debug)]
pub enum Step<R> {
    /// The call is over with this result.
    Done(TwitchResult<R>),
    /// Decode the body as the expected result shape.
    DecodeTarget,
    /// Decode the body as an error object; the cause is the decode failure of
    /// the expected shape, where that was tried.
    DecodeErrorBody(Option<DecodeError>),
}

/// The first decision on a response: an empty body ends the call whatever the
/// status; a success status leads to the expected shape; any other status
/// leads straight to the error object.
pub open spec fn begin_step<R>(status: u16, body: Seq<char>) -> Step<R> {
    if body.len() == 0 {
        Step::Done(Err(ApiError::EmptyResponse))
    } else if is_success(status) {
        Step::DecodeTarget
    } else {
        Step::DecodeErrorBody(None)
    }
}

/// The decision after decoding the expected shape: a value ends the call, a
/// failure leads to the error object with the failure kept as its cause.
pub open spec fn target_step<R>(decoded: Result<R, DecodeError>) -> Step<R> {
    match decoded {
        Ok(v) => Step::Done(Ok(v)),
        Err(e) => Step::DecodeErrorBody(Some(e)),
    }
}

/// The result after decoding the error object. A decoded object becomes an
/// `ApiError` carrying `cause`; otherwise the call fails with the earlier
/// decode failure where there was one, else with this one.
pub open spec fn error_body_result<R>(
    cause: Option<DecodeError>,
    decoded: Result<ErrorBody, DecodeError>,
) -> TwitchResult<R> {
    match decoded {
        Ok(b) => Err(
            ApiError::ApiError(
                ErrorResponse { error: b.error, status: b.status, message: b.message, cause },
            ),
        ),
        Err(e) => Err(
            ApiError::DecodeFailure(
                match cause {
                    Some(c) => c,
                    None => e,
                },
            ),
        ),
    }
}

/// The result of a call whose response has `status` and `body`, where
/// `target` and `error_body` are what decoding the body as the expected shape
/// and as the error object give.
pub open spec fn response_outcome<R>(
    status: u16,
    body: Seq<char>,
    target: Result<R, DecodeError>,
    error_body: Result<ErrorBody, DecodeError>,
) -> TwitchResult<R> {
    if body.len() == 0 {
        Err(ApiError::EmptyResponse)
    } else if is_success(status) {
        match target {
            Ok(v) => Ok(v),
            Err(e) => error_body_result(Some(e), error_body),
        }
    } else {
        error_body_result(None, error_body)
    }
}

/// Takes the first decision on a response.
pub fn begin_response<R>(status: u16, body: &str) -> (r: Step<R>)
    ensures
        r == begin_step::<R>(status, body@),
{
    if body.is_empty() {
        Step::Done(Err(ApiError::EmptyResponse))
    } else if 200 <= status && status < 300 {
        Step::DecodeTarget
    } else {
        Step::DecodeErrorBody(None)
    }
}

/// Takes the decision after decoding the expected shape.
pub fn after_target<R>(decoded: Result<R, DecodeError>) -> (r: Step<R>)
    ensures
        r == target_step(decoded),
{
    match decoded {
        Ok(v) => Step::Done(Ok(v)),
        Err(e) => Step::DecodeErrorBody(Some(e)),
    }
}

/// Gives the result after decoding the error object.
pub fn after_error_body<R>(cause: Option<DecodeError>, decoded: Result<ErrorBody, DecodeError>) -> (r:
    TwitchResult<R>)
    ensures
        r == error_body_result::<R>(cause, decoded),
{
    match decoded {
        Ok(b) => Err(
            ApiError::ApiError(
                ErrorResponse { error: b.error, status: b.status, message: b.message, cause },
            ),
        ),
        Err(e) => match cause {
            Some(c) => Err(ApiError::DecodeFailure(c)),
            None => Err(ApiError::DecodeFailure(e)),
        },
    }
}

/// Following the steps, each decode asked for being answered with `target`
/// or `error_body`, ends in the outcome of the call.
pub proof fn lemma_steps_give_outcome<R>(
    status: u16,
    body: Seq<char>,
    target: Result<R, DecodeError>,
    error_body: Result<ErrorBody, DecodeError>,
)
    ensures
        ({
            let outcome = response_outcome(status, body, target, error_body);
            match begin_step::<R>(status, body) {
                Step::Done(r) => r == outcome,
                Step::DecodeTarget => match target_step(target) {
                    Step::Done(r) => r == outcome,
                    Step::DecodeErrorBody(c) => error_body_result::<R>(c, error_body) == outcome,
                    Step::DecodeTarget => false,
                },
                Step::DecodeErrorBody(c) => error_body_result::<R>(c, error_body) == outcome,
            }
        }),
{
}

/// An empty body fails with `EmptyResponse`, whatever the status and
/// whatever decoding would give.
pub proof fn lemma_empty_body_fails<R>(
    status: u16,
    target: Result<R, DecodeError>,
    error_body: Result<ErrorBody, DecodeError>,
)
    ensures
        response_outcome(status, Seq::empty(), target, error_body) == Err::<R, ApiError>(
            ApiError::EmptyResponse,
        ),
{
}

/// A non-empty body with a success status that decodes as the expected shape
/// gives that value.
pub proof fn lemma_decoded_target_returned<R>(
    status: u16,
    body: Seq<char>,
    v: R,
    error_body: Result<ErrorBody, DecodeError>,
)
    requires
        body.len() > 0,
        is_success(status),
    ensures
        response_outcome(status, body, Ok(v), error_body) == Ok::<R, ApiError>(v),
{
}

/// A non-empty body with a success status that fails to decode as the
/// expected shape but decodes as an error object gives an `ApiError` whose
/// cause is the first decode failure.
pub proof fn lemma_error_body_keeps_cause<R>(status: u16, body: Seq<char>, e: DecodeError, b: ErrorBody)
    requires
        body.len() > 0,
        is_success(status),
    ensures
        response_outcome::<R>(status, body, Err(e), Ok(b)) == Err::<R, ApiError>(
            ApiError::ApiError(
                ErrorResponse { error: b.error, status: b.status, message: b.message, cause: Some(e) },
            ),
        ),
{
}

/// A non-empty body that decodes neither as the expected shape nor as an
/// error object gives a `DecodeFailure`, which asks for a diagnostic; with a
/// success status it is the failure of the expected shape.
pub proof fn lemma_undecodable_body_fails<R>(
    status: u16,
    body: Seq<char>,
    e: DecodeError,
    e2: DecodeError,
)
    requires
        body.len() > 0,
    ensures
        response_outcome::<R>(status, body, Err(e), Err(e2)) is Err,
        response_outcome::<R>(status, body, Err(e), Err(e2))->Err_0 is DecodeFailure,
        is_success(status) ==> response_outcome::<R>(status, body, Err(e), Err(e2)) == Err::<
            R,
            ApiError,
        >(ApiError::DecodeFailure(e)),
{
}

/// Whether a failed call should report the raw body for diagnosis: exactly
/// when the body could not be decoded at all.
pub fn needs_diagnostic(e: &ApiError) -> (r: bool)
    ensures
        r == e is DecodeFailure,
{
    match e {
        ApiError::DecodeFailure(_) => true,
        _ => false,
    }
}

/// An HTTP transport and the credentials that authenticate its requests.
/// The transport is fixed at construction; the token may be rotated.
pub struct TwitchClient {
    client: reqwest::Client,
    cred: Credentials,
}

/// Creates a client whose credentials are loaded from `source`.
pub fn new(source: CredentialSource) -> (r: TwitchResult<TwitchClient>)
    ensures
        source matches CredentialSource::Environment { client_id, token } ==> (r matches Ok(c)
            ==> opt_view(c.credentials().client_id) == Some(or_empty(client_id)) && opt_view(
            c.credentials().token,
        ) == Some(or_empty(token))),
        source is Environment ==> !(r matches Err(ApiError::Config(_))),
        source matches CredentialSource::File(text) ==> ((r matches Err(ApiError::Config(_)))
            <==> !(toml_parses(text@) && file_entry(text@, client_id_key()) is Some && file_entry(
            text@,
            token_key(),
        ) is Some)),
        source matches CredentialSource::File(text) ==> (r matches Ok(c) ==> file_entry(
            text@,
            client_id_key(),
        ) == Some(opt_view(c.credentials().client_id)) && file_entry(text@, token_key()) == Some(
            opt_view(c.credentials().token),
        )),
        r matches Err(e) ==> e is Config || e is TransportFailure,
{
    match Credentials::new(source) {
        Ok(cred) => TwitchClient::with_credentials(cred),
        Err(e) => Err(ApiError::Config(e)),
    }
}

impl TwitchClient {
    /// The credentials that the client authenticates with.
    pub closed spec fn credentials(&self) -> Credentials {
        self.cred
    }

    /// The HTTP transport of the client.
    pub closed spec fn transport(&self) -> reqwest::Client {
        self.client
    }

    /// Creates a client that authenticates with `cred`.
    pub fn with_credentials(cred: Credentials) -> (r: TwitchResult<TwitchClient>)
        ensures
            r matches Ok(c) ==> c.credentials() == cred,
            r matches Err(e) ==> e is TransportFailure,
    {
        match http_client() {
            Ok(client) => Ok(TwitchClient { client, cred }),
            Err(e) => Err(ApiError::TransportFailure(e)),
        }
    }

    /// The credentials that the client authenticates with.
    pub fn cred(&self) -> (r: &Credentials)
        ensures
            *r == self.credentials(),
    {
        &self.cred
    }

    /// The HTTP transport.
    pub fn http(&self) -> (r: &reqwest::Client)
        ensures
            *r == self.transport(),
    {
        &self.client
    }

    /// Rotates the OAuth token; the client identifier is kept.
    pub fn set_oauth_token(&mut self, token: &str)
        ensures
            final(self).transport() == old(self).transport(),
            final(self).credentials().client_id == old(self).credentials().client_id,
            opt_view(final(self).credentials().token) == Some(token@),
    {
        self.cred.set_token(token);
    }

    /// Prepares an authenticated request for an API path.
    pub fn build_request(&self, method: Method, path: &str) -> (r: TwitchResult<Request>)
        ensures
            self.credentials().client_id is None ==> r matches Err(
                ApiError::Config(ConfigError::MissingClientId),
            ),
            self.credentials().client_id is Some && self.credentials().token is None ==> r matches Err(
                ApiError::Config(ConfigError::MissingToken),
            ),
            self.credentials().client_id is Some && self.credentials().token is Some ==> (r matches Ok(
                q,
            ) && q.method == method && q.url@ == api_url(path@) && headers_view(q.headers@)
                == auth_headers(
                self.credentials().client_id.unwrap()@,
                self.credentials().token.unwrap()@,
            )),
    {
        let headers = request_headers(&self.cred)?;
        Ok(Request { method, url: request_url(path), headers })
    }
}

} // verus!
