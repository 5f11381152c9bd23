//! Client-side protocol engine for a remote CAPTCHA-solving service.
//!
//! The service accepts an image (uploaded as a file or inlined as base64),
//! answers with a job id, and is then polled until the solved text is ready.
//! This crate holds the verified core of such a client: building the submit
//! request, classifying the `{status, request}` response envelopes of both
//! phases into a closed error taxonomy, and the decisions of the polling
//! loop (what each response means, and how long to wait before the next
//! attempt). The HTTP transport itself is left to the caller, which feeds
//! every observed outcome back in as a plain value.

use vstd::prelude::*;

pub mod b64;
pub mod cli_args;
pub mod normal;
pub mod response;
pub mod text;

pub use response::ApiResponse;
pub use response::ApiResponseView;
pub use response::CaptchaResponseError;
pub use response::CaptchaResponseErrorView;
pub use response::PollResponseError;
pub use response::PollResponseErrorView;
pub use response::PollResult;
pub use response::PollResultView;
pub use response::spec_extract_captcha_id;
pub use response::spec_extract_poll_result;

verus! {

/// Endpoint and polling configuration, immutable for a client's lifetime.
#[derive(Clone, PartialEq, Debug)]
pub struct Params {
    pub api_request_url: String,
    pub api_result_url: String,
    pub poll_timeout_ms: u64,
}

/// Mathematical image of [`Params`].
pub struct ParamsView {
    pub api_request_url: Seq<char>,
    pub api_result_url: Seq<char>,
    pub poll_timeout_ms: u64,
}

impl View for Params {
    type V = ParamsView;

    open spec fn view(&self) -> ParamsView {
        ParamsView {
            api_request_url: self.api_request_url@,
            api_result_url: self.api_result_url@,
            poll_timeout_ms: self.poll_timeout_ms,
        }
    }
}

impl Default for Params {
    /// The service's standard endpoints, polled every five seconds.
    fn default() -> (r: Params)
        ensures
            r@.api_request_url == "http://2captcha.com/in.php"@,
            r@.api_result_url == "http://2captcha.com/res.php"@,
            r@.poll_timeout_ms == 5000,
    {
        Params {
            api_request_url: String::from_str("http://2captcha.com/in.php"),
            api_result_url: String::from_str("http://2captcha.com/res.php"),
            poll_timeout_ms: 5000,
        }
    }
}

/// The caller's secret key for the remote service.
pub struct ApiToken {
    key: String,
}

impl View for ApiToken {
    type V = Seq<char>;

    closed spec fn view(&self) -> Seq<char> {
        self.key@
    }
}

impl ApiToken {
    pub(crate) fn key(&self) -> (r: &str)
        ensures
            r@ == self@,
    {
        self.key.as_str()
    }
}

impl From<String> for ApiToken {
    fn from(key: String) -> (r: ApiToken)
        ensures
            r@ == key@,
    {
        ApiToken { key }
    }
}

impl vstd::std_specs::convert::FromSpecImpl<String> for ApiToken {
    open spec fn obeys_from_spec() -> bool {
        true
    }

    closed spec fn from_spec(key: String) -> ApiToken {
        ApiToken { key }
    }
}

/// The solved answer text, terminal result of a successful solve.
pub struct Solved {
    answer: String,
}

impl View for Solved {
    type V = Seq<char>;

    closed spec fn view(&self) -> Seq<char> {
        self.answer@
    }
}

impl Solved {
    pub fn answer(&self) -> (r: &str)
        ensures
            r@ == self@,
    {
        self.answer.as_str()
    }
}

/// Key/value form fields as pairs of character sequences.
pub open spec fn kv_view(fields: Seq<(String, String)>) -> Seq<(Seq<char>, Seq<char>)> {
    fields.map_values(|p: (String, String)| (p.0@, p.1@))
}

/// What one HTTP exchange came to, as the caller observed it: the send
/// failed, the service answered with an unexpected HTTP status, the body
/// could not be read or did not decode as an envelope, or an envelope.
pub enum HttpEvent {
    SendFailed { message: String },
    BadStatusCode { status_code: u16 },
    ReadBodyFailed { message: String },
    DecodeFailed { message: String },
    Envelope(ApiResponse),
}

/// Every way a solve can end short of an answer. `E` is the caller's error
/// for preparing the submit request (say, the image file would not open).
#[derive(Debug)]
pub enum ApiError<E> {
    PrepareCaptchaRequest(E),
    SendCaptchaRequest { message: String },
    SendCaptchaRequestBadStatusCode { status_code: u16 },
    ReadCaptchaResponse { message: String },
    DecodeCaptchaResponse { message: String },
    CaptchaResponse(CaptchaResponseError),
    PollResponse(PollResponseError),
    SendPollRequest { message: String },
    SendPollRequestBadStatusCode { status_code: u16 },
    ReadPollResponse { message: String },
    DecodePollResponse { message: String },
}

/// Where the engine stands after the submit exchange: polling can start
/// under the obtained job id, or the solve is over with an error.
pub enum SubmitStep<E> {
    Proceed { captcha_id: String },
    Fail(ApiError<E>),
}

/// Where the engine stands after one poll exchange: the answer is there,
/// another attempt is due after the inter-poll delay, or the solve is over
/// with an error. Every failure is terminal; only `NotReady` loops.
pub enum PollStep<E> {
    Ready(Solved),
    NotReady,
    Fail(ApiError<E>),
}

/// The client: credential and configuration, immutable for its lifetime.
pub struct Api {
    api_token: ApiToken,
    params: Params,
}

/// Mathematical image of [`Api`].
pub struct ApiView {
    pub key: Seq<char>,
    pub params: ParamsView,
}

impl View for Api {
    type V = ApiView;

    closed spec fn view(&self) -> ApiView {
        ApiView { key: self.api_token@, params: self.params@ }
    }
}

impl Api {
    pub fn new(api_token: ApiToken, params: Params) -> (r: Api)
        ensures
            r@.key == api_token@,
            r@.params == params@,
    {
        Api { api_token, params }
    }

    /// The credential this client submits under.
    pub fn api_token(&self) -> (r: &ApiToken)
        ensures
            r@ == self@.key,
    {
        &self.api_token
    }

    /// The endpoint the submit request goes to.
    pub fn request_url(&self) -> (r: &str)
        ensures
            r@ == self@.params.api_request_url,
    {
        self.params.api_request_url.as_str()
    }

    /// The endpoint the poll requests go to.
    pub fn result_url(&self) -> (r: &str)
        ensures
            r@ == self@.params.api_result_url,
    {
        self.params.api_result_url.as_str()
    }

    /// The form fields of one poll request for the job `captcha_id`.
    pub fn poll_request(&self, captcha_id: &str) -> (r: Vec<(String, String)>)
        ensures
            kv_view(r@) == seq![
                ("key"@, self@.key),
                ("action"@, "get"@),
                ("id"@, captcha_id@),
                ("json"@, "1"@),
            ],
    {
        let mut fields: Vec<(String, String)> = Vec::new();
        fields.push((String::from_str("key"), self.api_token.key.clone()));
        fields.push((String::from_str("action"), String::from_str("get")));
        fields.push((String::from_str("id"), captcha_id.to_owned()));
        fields.push((String::from_str("json"), String::from_str("1")));
        proof {
            assert(kv_view(fields@) =~= seq![
                ("key"@, self@.key),
                ("action"@, "get"@),
                ("id"@, captcha_id@),
                ("json"@, "1"@),
            ]);
        }
        fields
    }

    /// The `Submitting` transition: a transport or decode failure and a
    /// non-OK HTTP status are terminal with the submit-phase error of that
    /// kind; an envelope is classified, into the job id to poll under or a
    /// terminal classified error.
    pub fn submit_step<E>(&self, event: HttpEvent) -> (r: SubmitStep<E>)
        ensures
            (match event {
                HttpEvent::SendFailed { message } => r matches SubmitStep::Fail(
                    ApiError::SendCaptchaRequest { message: m },
                ) && m@ == message@,
                HttpEvent::BadStatusCode { status_code } => r matches SubmitStep::Fail(
                    ApiError::SendCaptchaRequestBadStatusCode { status_code: c },
                ) && c == status_code,
                HttpEvent::ReadBodyFailed { message } => r matches SubmitStep::Fail(
                    ApiError::ReadCaptchaResponse { message: m },
                ) && m@ == message@,
                HttpEvent::DecodeFailed { message } => r matches SubmitStep::Fail(
                    ApiError::DecodeCaptchaResponse { message: m },
                ) && m@ == message@,
                HttpEvent::Envelope(env) => match spec_extract_captcha_id(env@) {
                    Ok(id) => r matches SubmitStep::Proceed { captcha_id } && captcha_id@ == id,
                    Err(e) => r matches SubmitStep::Fail(ApiError::CaptchaResponse(ce))
                        && ce@ == e,
                },
            }),
    {
        match event {
            HttpEvent::SendFailed { message } => SubmitStep::Fail(
                ApiError::SendCaptchaRequest { message },
            ),
            HttpEvent::BadStatusCode { status_code } => SubmitStep::Fail(
                ApiError::SendCaptchaRequestBadStatusCode { status_code },
            ),
            HttpEvent::ReadBodyFailed { message } => SubmitStep::Fail(
                ApiError::ReadCaptchaResponse { message },
            ),
            HttpEvent::DecodeFailed { message } => SubmitStep::Fail(
                ApiError::DecodeCaptchaResponse { message },
            ),
            HttpEvent::Envelope(env) => match env.extract_captcha_id() {
                Ok(captcha_id) => SubmitStep::Proceed { captcha_id },
                Err(e) => SubmitStep::Fail(ApiError::CaptchaResponse(e)),
            },
        }
    }

    /// The `Polling` transition: a transport or decode failure and a non-OK
    /// HTTP status are terminal with the poll-phase error of that kind; an
    /// envelope is classified, into the answer, another round, or a terminal
    /// classified error.
    pub fn poll_step<E>(&self, event: HttpEvent) -> (r: PollStep<E>)
        ensures
            (match event {
                HttpEvent::SendFailed { message } => r matches PollStep::Fail(
                    ApiError::SendPollRequest { message: m },
                ) && m@ == message@,
                HttpEvent::BadStatusCode { status_code } => r matches PollStep::Fail(
                    ApiError::SendPollRequestBadStatusCode { status_code: c },
                ) && c == status_code,
                HttpEvent::ReadBodyFailed { message } => r matches PollStep::Fail(
                    ApiError::ReadPollResponse { message: m },
                ) && m@ == message@,
                HttpEvent::DecodeFailed { message } => r matches PollStep::Fail(
                    ApiError::DecodePollResponse { message: m },
                ) && m@ == message@,
                HttpEvent::Envelope(env) => match spec_extract_poll_result(env@) {
                    Ok(PollResultView::Ready { solved_captcha }) => r matches PollStep::Ready(s)
                        && s@ == solved_captcha,
                    Ok(PollResultView::NotReady) => r is NotReady,
                    Err(e) => r matches PollStep::Fail(ApiError::PollResponse(pe)) && pe@ == e,
                },
            }),
    {
        match event {
            HttpEvent::SendFailed { message } => PollStep::Fail(
                ApiError::SendPollRequest { message },
            ),
            HttpEvent::BadStatusCode { status_code } => PollStep::Fail(
                ApiError::SendPollRequestBadStatusCode { status_code },
            ),
            HttpEvent::ReadBodyFailed { message } => PollStep::Fail(
                ApiError::ReadPollResponse { message },
            ),
            HttpEvent::DecodeFailed { message } => PollStep::Fail(
                ApiError::DecodePollResponse { message },
            ),
            HttpEvent::Envelope(env) => match env.extract_poll_result() {
                Ok(PollResult::Ready { solved_captcha }) => PollStep::Ready(
                    Solved { answer: solved_captcha },
                ),
                Ok(PollResult::NotReady) => PollStep::NotReady,
                Err(e) => PollStep::Fail(ApiError::PollResponse(e)),
            },
        }
    }

    /// How long to suspend after a not-ready poll, measured against the
    /// attempt's start: the remainder of the poll interval, and nothing when
    /// the attempt already consumed it.
    pub fn wait_before_next_poll(&self, elapsed_ms: u64) -> (r: u64)
        ensures
            r == if elapsed_ms < self@.params.poll_timeout_ms {
                (self@.params.poll_timeout_ms - elapsed_ms) as u64
            } else {
                0u64
            },
    {
        if elapsed_ms < self.params.poll_timeout_ms {
            self.params.poll_timeout_ms - elapsed_ms
        } else {
            0
        }
    }
}

} // verus!
