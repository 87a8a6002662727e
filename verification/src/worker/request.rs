//! The requests that carry telemetry.

use crate::data::{ApiVersion, Application, Host, Payload};
use crate::endpoint::{uri_of_text, uri_text, Endpoint};
use crate::worker::config::Config;
use crate::worker::TelemetryWorker;
use vstd::multiset::*;
use vstd::prelude::*;
use vstd::string::*;
use vstd::utf8::encode_utf8;

verus! {

/// A request that is being put together. What it holds is named by `builder_head`.
#[verifier::external_type_specification]
#[verifier::external_body]
pub struct ExRequestBuilder(http::request::Builder);

/// A finished request. What it holds is named by `request_head` and
/// `request_body`.
#[verifier::external_type_specification]
#[verifier::external_body]
#[verifier::reject_recursive_types(T)]
pub struct ExRequest<T>(http::Request<T>);

/// The error of `http::request::Builder::body`.
#[verifier::external_type_specification]
#[verifier::external_body]
pub struct ExHttpError(http::Error);

/// What an `http::request::Builder` holds: the method, the components of the
/// URI, and the headers, each name in lower case with the bytes of its value. A
/// name that has several values is there with each. Once a step was refused the
/// builder holds nothing.
pub uninterp spec fn builder_head(builder: http::request::Builder) -> Option<
    (
        Seq<char>,
        (Option<Seq<char>>, Option<Seq<char>>, Option<Seq<char>>),
        Multiset<(Seq<char>, Seq<u8>)>,
    ),
>;

/// What an `http::Request` holds beside its body, as in `builder_head`.
pub uninterp spec fn request_head(request: http::Request<Vec<u8>>) -> (
    Seq<char>,
    (Option<Seq<char>>, Option<Seq<char>>, Option<Seq<char>>),
    Multiset<(Seq<char>, Seq<u8>)>,
);

/// The body of an `http::Request`.
pub uninterp spec fn request_body(request: http::Request<Vec<u8>>) -> Seq<u8>;

/// Names made of lower case letters, digits and hyphens, as the worker's
/// headers have.
pub open spec fn plain_header_name(name: Seq<char>) -> bool {
    &&& 0 < name.len() <= 64
    &&& forall|i: int|
        0 <= i < name.len() ==> ('a' <= #[trigger] name[i] <= 'z' || '0' <= name[i] <= '9'
            || name[i] == '-')
}

/// Texts that can be the value of a header: those without control characters
/// other than the horizontal tab.
pub open spec fn header_value_text(text: Seq<char>) -> bool {
    forall|i: int|
        0 <= i < text.len() ==> (#[trigger] text[i] == '\t' || (text[i] >= ' ' && text[i]
            != '\u{7f}'))
}

/// Calls `http::Request::builder`: the builder that it returns holds the method
/// GET, the URI of the root path and no headers.
#[verifier::external_body]
fn new_builder() -> (builder: http::request::Builder)
    ensures
        builder_head(builder) == Some(
            (
                "GET"@,
                (None::<Seq<char>>, None::<Seq<char>>, Some("/"@)),
                Multiset::<(Seq<char>, Seq<u8>)>::empty(),
            ),
        ),
{
    http::Request::builder()
}

/// Calls `http::request::Builder::uri` with a text, which is read as
/// `http::Uri::from_str` reads it: the URI becomes the one that the text spells,
/// and the step is refused if it spells none.
#[verifier::external_body]
fn with_uri(builder: http::request::Builder, text: &str) -> (after: http::request::Builder)
    ensures
        builder_head(after) == (match (builder_head(builder), uri_of_text(text@)) {
            (Some((method, _, headers)), Some(uri)) => Some((method, uri, headers)),
            _ => None,
        }),
{
    builder.uri(text)
}

/// Calls `http::request::Builder::method` with the method POST.
#[verifier::external_body]
fn with_post(builder: http::request::Builder) -> (after: http::request::Builder)
    ensures
        builder_head(after) == (match builder_head(builder) {
            Some((_, uri, headers)) => Some(("POST"@, uri, headers)),
            None => None,
        }),
{
    builder.method(http::Method::POST)
}

/// Calls `http::request::Builder::header`. The builder gets one more header, and
/// those that it held, of the same name too, stay. The step is refused just if a
/// byte of the value is a control character other than the horizontal tab. (A
/// builder also refuses headers when it holds thousands of them, so few are
/// required here.)
#[verifier::external_body]
fn with_header(builder: http::request::Builder, name: &str, value: &str) -> (after:
    http::request::Builder)
    requires
        plain_header_name(name@),
        builder_head(builder) matches Some((_, _, headers)) ==> headers.len() < 100,
    ensures
        builder_head(after) == (match builder_head(builder) {
            Some((method, uri, headers)) => if header_value_text(value@) {
                Some((method, uri, headers.insert((name@, encode_utf8(value@)))))
            } else {
                None
            },
            None => None,
        }),
{
    builder.header(name, value)
}

/// Calls `http::request::Builder::body`: the request that the builder holds with
/// the body `body`, or an error if a step was refused.
#[verifier::external_body]
fn with_body(builder: http::request::Builder, body: Vec<u8>) -> (request: Result<
    http::Request<Vec<u8>>,
    http::Error,
>)
    ensures
        request is Ok <==> builder_head(builder) is Some,
        request matches Ok(request) ==> Some(request_head(request)) == builder_head(builder)
            && request_body(request) == body@,
{
    builder.body(body)
}

/// What a telemetry request says: the payload and who sends it.
#[derive(Debug)]
pub struct Telemetry<'a, V> {
    pub api_version: ApiVersion,
    pub tracer_time: u64,
    pub runtime_id: &'a str,
    pub seq_id: u64,
    pub host: &'a Host,
    pub application: &'a Application,
    pub payload: &'a Payload<V>,
}

/// Why a request cannot be built.
#[derive(Debug, Clone, Copy, PartialEq, Eq, Structural)]
pub enum RequestError {
    /// There is no endpoint to send to.
    NoEndpoint,
    /// The endpoint's URL is not a URI, or the API key, the language's name or
    /// the tracer's version holds a character that no header can hold.
    InvalidRequest,
}

/// The headers that identify the sender at `endpoint`.
pub open spec fn endpoint_headers(endpoint: Endpoint) -> Multiset<(Seq<char>, Seq<u8>)> {
    match endpoint.api_key {
        Some(api_key) => Multiset::<(Seq<char>, Seq<u8>)>::empty().insert(
            ("dd-api-key"@, encode_utf8(api_key@)),
        ),
        None => Multiset::empty(),
    }
}

/// Whether requests to `endpoint` can be built: its URL is a URI, and its key
/// can be a header.
pub open spec fn endpoint_usable(endpoint: Endpoint) -> bool {
    &&& uri_of_text(uri_text(endpoint.url@)) is Some
    &&& endpoint.api_key matches Some(api_key) ==> header_value_text(api_key@)
}

impl<'a, V> Telemetry<'a, V> {
    /// Whether the texts that become headers can be headers.
    pub open spec fn has_header_texts(self) -> bool {
        header_value_text(self.application.language_name@) && header_value_text(
            self.application.tracer_version@,
        )
    }

    /// The headers of the request to `endpoint`.
    pub open spec fn headers(self, endpoint: Endpoint) -> Multiset<(Seq<char>, Seq<u8>)> {
        endpoint_headers(endpoint).insert(
            ("content-type"@, encode_utf8("application/json"@)),
        ).insert(("dd-telemetry-request-type"@, encode_utf8(self.payload.kind()))).insert(
            ("dd-telemetry-api-version"@, encode_utf8("v2"@)),
        ).insert(
            ("dd-client-library-language"@, encode_utf8(self.application.language_name@)),
        ).insert(("dd-client-library-version"@, encode_utf8(self.application.tracer_version@)))
    }
}

impl TelemetryWorker {
    /// What the next request says, and the configuration that says where it
    /// goes. `since_epoch` is the time in seconds since the Unix epoch, unless the
    /// clock is set to a time before that.
    pub fn telemetry<'a, V>(
        &'a mut self,
        since_epoch: Option<u64>,
        payload: &'a Payload<V>,
    ) -> (next: (Telemetry<'a, V>, &'a Config))
        requires
            old(self).wf(),
        ensures
            final(self).wf(),
            final(self)@ == old(self)@.next_request(),
            next.0.api_version == ApiVersion::V2,
            next.0.tracer_time == (match since_epoch {
                Some(seconds) => seconds,
                None => 0,
            }),
            next.0.runtime_id@ == old(self)@.runtime_id,
            next.0.seq_id == old(self)@.seq_id,
            *next.0.host == old(self)@.host,
            *next.0.application == old(self)@.app,
            *next.0.payload == *payload,
            *next.1 == old(self)@.config,
    {
        let seq_id: u64 = self.next_seq_id();
        let tel = Telemetry {
            api_version: ApiVersion::V2,
            tracer_time: since_epoch.unwrap_or(0),
            runtime_id: self.runtime_id.as_str(),
            seq_id,
            host: &self.data.host,
            application: &self.data.app,
            payload,
        };
        (tel, &self.config)
    }
}

/// The names and the fixed values of the headers are texts that headers can
/// have.
proof fn static_texts<V>(payload: Payload<V>)
    ensures
        plain_header_name("dd-api-key"@),
        plain_header_name("content-type"@),
        plain_header_name("dd-telemetry-request-type"@),
        plain_header_name("dd-telemetry-api-version"@),
        plain_header_name("dd-client-library-language"@),
        plain_header_name("dd-client-library-version"@),
        header_value_text("application/json"@),
        header_value_text("v2"@),
        header_value_text(payload.kind()),
{
    reveal_strlit("dd-api-key");
    reveal_strlit("content-type");
    reveal_strlit("dd-telemetry-request-type");
    reveal_strlit("dd-telemetry-api-version");
    reveal_strlit("dd-client-library-language");
    reveal_strlit("dd-client-library-version");
    reveal_strlit("application/json");
    reveal_strlit("v2");
    reveal_strlit("app-started");
    reveal_strlit("app-dependencies-loaded");
    reveal_strlit("app-integrations-change");
    reveal_strlit("app-client-configuration-change");
    reveal_strlit("app-heartbeat");
    reveal_strlit("app-closing");
    reveal_strlit("generate-metrics");
    reveal_strlit("logs");
    reveal_strlit("message-batch");
    reveal_strlit("app-extended-heartbeat");
}

/// Starts a request to the endpoint that `config` names.
fn request_builder(config: &Config) -> (builder: Result<http::request::Builder, RequestError>)
    ensures
        match config.endpoint {
            None => builder == Err::<http::request::Builder, RequestError>(
                RequestError::NoEndpoint,
            ),
            Some(endpoint) => builder matches Ok(builder) && builder_head(builder) == (
            if endpoint_usable(endpoint) {
                Some(
                    (
                        "GET"@,
                        uri_of_text(uri_text(endpoint.url@))->0,
                        endpoint_headers(endpoint),
                    ),
                )
            } else {
                None
            }),
        },
{
    broadcast use group_multiset_axioms;

    proof {
        static_texts(Payload::<()>::AppHeartbeat(()));
    }
    match &config.endpoint {
        Some(endpoint) => {
            let builder = with_uri(new_builder(), endpoint.url.to_text().as_str());
            match &endpoint.api_key {
                Some(api_key) => Ok(with_header(builder, "dd-api-key", api_key.as_str())),
                None => Ok(builder),
            }
        },
        None => Err(RequestError::NoEndpoint),
    }
}

/// The request for `tel`, whose serialized form is `body`, to the endpoint that
/// `config` names.
pub fn build_request<V>(config: &Config, tel: &Telemetry<V>, body: Vec<u8>) -> (request: Result<
    http::Request<Vec<u8>>,
    RequestError,
>)
    ensures
        match config.endpoint {
            None => request == Err::<http::Request<Vec<u8>>, RequestError>(
                RequestError::NoEndpoint,
            ),
            Some(endpoint) => if endpoint_usable(endpoint) && tel.has_header_texts() {
                &&& request matches Ok(req)
                &&& request_head(req) == (
                    "POST"@,
                    uri_of_text(uri_text(endpoint.url@))->0,
                    tel.headers(endpoint),
                )
                &&& request_body(req) == body@
            } else {
                request == Err::<http::Request<Vec<u8>>, RequestError>(
                    RequestError::InvalidRequest,
                )
            },
        },
{
    broadcast use group_multiset_axioms;

    proof {
        static_texts(*tel.payload);
    }
    let builder = match request_builder(config) {
        Ok(builder) => builder,
        Err(error) => return Err(error),
    };
    let builder = with_post(builder);
    let builder = with_header(builder, "content-type", "application/json");
    let builder = with_header(builder, "dd-telemetry-request-type", tel.payload.request_type());
    let builder = with_header(builder, "dd-telemetry-api-version", ApiVersion::V2.to_str());
    let builder = with_header(
        builder,
        "dd-client-library-language",
        tel.application.language_name.as_str(),
    );
    let builder = with_header(
        builder,
        "dd-client-library-version",
        tel.application.tracer_version.as_str(),
    );
    match with_body(builder, body) {
        Ok(request) => Ok(request),
        Err(_) => Err(RequestError::InvalidRequest),
    }
}

/// What became of a payload that was to be sent.
#[derive(Debug, Clone, Copy, PartialEq, Eq, Structural)]
pub enum SendOutcome {
    /// The request could not be built.
    NotBuilt,
    /// The worker's requests were cancelled before an answer came.
    Cancelled,
    /// An answer came, whatever its status.
    Answered,
    /// The request failed without an answer.
    Failed,
}

/// Why a payload does not count as delivered.
#[derive(Debug, Clone, Copy, PartialEq, Eq, Structural)]
pub enum SendError {
    NotBuilt,
    Cancelled,
    Failed,
}

/// A payload counts as delivered just if an answer came.
pub fn send_result(outcome: SendOutcome) -> (sent: Result<(), SendError>)
    ensures
        sent == (match outcome {
            SendOutcome::NotBuilt => Err(SendError::NotBuilt),
            SendOutcome::Cancelled => Err(SendError::Cancelled),
            SendOutcome::Answered => Ok(()),
            SendOutcome::Failed => Err(SendError::Failed),
        }),
{
    match outcome {
        SendOutcome::NotBuilt => Err(SendError::NotBuilt),
        SendOutcome::Cancelled => Err(SendError::Cancelled),
        SendOutcome::Answered => Ok(()),
        SendOutcome::Failed => Err(SendError::Failed),
    }
}

/// A text can be a header just if each of its characters can: the horizontal tab,
/// or any other that is no control character.
pub proof fn header_texts_have_no_control_characters(text: Seq<char>, i: int)
    ensures
        header_value_text(text) && 0 <= i < text.len() ==> text[i] == '\t' || (text[i] >= ' '
            && text[i] != '\u{7f}'),
        0 <= i < text.len() && text[i] != '\t' && (text[i] < ' ' || text[i] == '\u{7f}')
            ==> !header_value_text(text),
        (forall|j: int|
            0 <= j < text.len() ==> (#[trigger] text[j] == '\t' || (text[j] >= ' ' && text[j]
                != '\u{7f}'))) ==> header_value_text(text),
{
}

/// Requests can be sent to an endpoint just if its URL spells a URI and its key,
/// if it has one, can be a header; and of an application just if the language's
/// name and the tracer's version can.
pub proof fn what_becomes_a_header_must_be_one<'a, V>(endpoint: Endpoint, tel: Telemetry<'a, V>)
    ensures
        endpoint.api_key is None ==> (endpoint_usable(endpoint) <==> uri_of_text(
            uri_text(endpoint.url@),
        ) is Some),
        endpoint.api_key matches Some(key) ==> (endpoint_usable(endpoint) <==> uri_of_text(
            uri_text(endpoint.url@),
        ) is Some && header_value_text(key@)),
        tel.has_header_texts() <==> header_value_text(tel.application.language_name@)
            && header_value_text(tel.application.tracer_version@),
{
}

/// A request has five headers, each with its own value, and a sixth with the key
/// just if the endpoint has one.
pub proof fn a_request_has_its_headers_once<'a, V>(
    tel: Telemetry<'a, V>,
    endpoint: Endpoint,
    name: Seq<char>,
    value: Seq<u8>,
)
    ensures
        ({
            let headers = tel.headers(endpoint);
            let expected = |n: Seq<char>, v: Seq<u8>|
                {
                    ||| n == "content-type"@ && v == encode_utf8("application/json"@)
                    ||| n == "dd-telemetry-request-type"@ && v == encode_utf8(tel.payload.kind())
                    ||| n == "dd-telemetry-api-version"@ && v == encode_utf8("v2"@)
                    ||| n == "dd-client-library-language"@ && v == encode_utf8(
                        tel.application.language_name@,
                    )
                    ||| n == "dd-client-library-version"@ && v == encode_utf8(
                        tel.application.tracer_version@,
                    )
                    ||| endpoint.api_key is Some && n == "dd-api-key"@ && v == encode_utf8(
                        endpoint.api_key->0@,
                    )
                };
            &&& headers.len() == if endpoint.api_key is Some {
                6int
            } else {
                5int
            }
            &&& expected(name, value) <==> headers.count((name, value)) == 1
            &&& !expected(name, value) <==> headers.count((name, value)) == 0
        }),
{
    broadcast use group_multiset_axioms;

    reveal_strlit("dd-api-key");
    reveal_strlit("content-type");
    reveal_strlit("dd-telemetry-request-type");
    reveal_strlit("dd-telemetry-api-version");
    reveal_strlit("dd-client-library-language");
    reveal_strlit("dd-client-library-version");
    assert("dd-api-key"@.len() == 10);
    assert("content-type"@.len() == 12);
    assert("dd-telemetry-api-version"@.len() == 24);
    assert("dd-client-library-language"@.len() == 26);
    assert("dd-telemetry-request-type"@[3] == 't');
    assert("dd-client-library-version"@[3] == 'c');
}

} // verus!
