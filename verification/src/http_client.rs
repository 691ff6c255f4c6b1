//! Endpoints, URL joining, status classification and the protocol of one
//! request: what to send, and what each possible answer means.

use std::time::Duration;
use vstd::prelude::*;
use vstd::string::*;
use crate::config::ClientConfig;
use crate::error::{ErrorKind, NHLApiError};
use crate::query::QueryParams;

verus! {

/// The remote services that the API is spread over.
#[derive(Debug, Clone)]
pub enum Endpoint {
    /// The web API, version 1.
    ApiWebV1,
    /// The core API.
    ApiCore,
    /// The statistics API.
    ApiStats,
    /// The search API, version 1.
    SearchV1,
    /// Any other base URL, for tests against a local server.
    Custom(String),
}

impl Endpoint {
    /// The base URL of this endpoint.
    pub open spec fn base_url_text(self) -> Seq<char> {
        match self {
            Endpoint::ApiWebV1 => "https://api-web.nhle.com/v1/"@,
            Endpoint::ApiCore => "https://api.nhle.com/"@,
            Endpoint::ApiStats => "https://api.nhle.com/stats/rest/"@,
            Endpoint::SearchV1 => "https://search.d3.nhle.com/api/v1/"@,
            Endpoint::Custom(url) => url@,
        }
    }

    /// The base URL of this endpoint.
    pub fn base_url(&self) -> (url: &str)
        ensures
            url@ == self.base_url_text(),
    {
        match self {
            Endpoint::ApiWebV1 => "https://api-web.nhle.com/v1/",
            Endpoint::ApiCore => "https://api.nhle.com/",
            Endpoint::ApiStats => "https://api.nhle.com/stats/rest/",
            Endpoint::SearchV1 => "https://search.d3.nhle.com/api/v1/",
            Endpoint::Custom(url) => url.as_str(),
        }
    }
}

/// True when `text` ends with a slash.
pub open spec fn ends_with_slash(text: Seq<char>) -> bool {
    text.len() > 0 && text.last() == '/'
}

/// True when `text` begins with a slash.
pub open spec fn starts_with_slash(text: Seq<char>) -> bool {
    text.len() > 0 && text.first() == '/'
}

/// `base` without its final slash, if it has one.
pub open spec fn without_trailing_slash(base: Seq<char>) -> Seq<char> {
    if ends_with_slash(base) {
        base.drop_last()
    } else {
        base
    }
}

/// `resource` without its first slash, if it has one.
pub open spec fn without_leading_slash(resource: Seq<char>) -> Seq<char> {
    if starts_with_slash(resource) {
        resource.drop_first()
    } else {
        resource
    }
}

/// The URL of `resource` under `base`: the two parts with exactly one slash
/// between them, whichever of them brought one. An empty resource leaves
/// the base as it is.
pub open spec fn joined_url(base: Seq<char>, resource: Seq<char>) -> Seq<char> {
    if resource.len() == 0 {
        base
    } else {
        without_trailing_slash(base) + seq!['/'] + without_leading_slash(resource)
    }
}

/// Joining with an empty resource gives the base back.
pub proof fn lemma_join_empty_resource(base: Seq<char>)
    ensures
        joined_url(base, Seq::<char>::empty()) == base,
{
}

/// Joining a resource that is not empty: where both sides bring a slash one
/// is dropped, where neither does one is put in, and where one side does the
/// two are put together as they are.
pub proof fn lemma_join_by_cases(base: Seq<char>, resource: Seq<char>)
    requires
        resource.len() > 0,
    ensures
        ends_with_slash(base) && starts_with_slash(resource) ==> joined_url(base, resource)
            == base + resource.drop_first(),
        !ends_with_slash(base) && !starts_with_slash(resource) ==> joined_url(base, resource)
            == base + seq!['/'] + resource,
        ends_with_slash(base) != starts_with_slash(resource) ==> joined_url(base, resource) == base
            + resource,
{
    let joined = joined_url(base, resource);
    if ends_with_slash(base) && starts_with_slash(resource) {
        assert(joined =~= base + resource.drop_first());
    } else if ends_with_slash(base) {
        assert(joined =~= base + resource);
    } else if starts_with_slash(resource) {
        assert(joined =~= base + resource);
    }
}

/// In a joined URL the two parts, stripped of the slash that either brought,
/// stand on both sides of a single slash.
pub proof fn lemma_join_single_separator(base: Seq<char>, resource: Seq<char>)
    requires
        resource.len() > 0,
    ensures
        ({
            let left = without_trailing_slash(base);
            let right = without_leading_slash(resource);
            let joined = joined_url(base, resource);
            &&& joined.len() == left.len() + 1 + right.len()
            &&& joined.subrange(0, left.len() as int) == left
            &&& joined[left.len() as int] == '/'
            &&& joined.subrange(left.len() as int + 1, joined.len() as int) == right
        }),
{
    let left = without_trailing_slash(base);
    let right = without_leading_slash(resource);
    let joined = joined_url(base, resource);
    assert(joined.subrange(0, left.len() as int) =~= left);
    assert(joined.subrange(left.len() as int + 1, joined.len() as int) =~= right);
}

/// True for the statuses that mean success: 200 to 299.
pub open spec fn is_success(status_code: u16) -> bool {
    200 <= status_code <= 299
}

/// The kind of error that a status which is no success stands for. The
/// exact codes come first, then the range of server errors, then the rest.
pub open spec fn kind_of_status(status_code: u16) -> ErrorKind {
    if status_code == 404 {
        ErrorKind::ResourceNotFound
    } else if status_code == 429 {
        ErrorKind::RateLimitExceeded
    } else if status_code == 400 {
        ErrorKind::BadRequest
    } else if status_code == 401 {
        ErrorKind::Unauthorized
    } else if 500 <= status_code <= 599 {
        ErrorKind::ServerError
    } else {
        ErrorKind::ApiError
    }
}

/// The kinds by status: each of 404, 429, 400 and 401 has its own, the
/// statuses from 500 to 599 are server errors, and every other status is
/// the general API error.
pub proof fn lemma_status_kinds(status_code: u16)
    ensures
        status_code == 404 ==> kind_of_status(status_code) == ErrorKind::ResourceNotFound,
        status_code == 429 ==> kind_of_status(status_code) == ErrorKind::RateLimitExceeded,
        status_code == 400 ==> kind_of_status(status_code) == ErrorKind::BadRequest,
        status_code == 401 ==> kind_of_status(status_code) == ErrorKind::Unauthorized,
        500 <= status_code <= 599 ==> kind_of_status(status_code) == ErrorKind::ServerError,
        !(status_code == 404 || status_code == 429 || status_code == 400 || status_code == 401
            || 500 <= status_code <= 599) ==> kind_of_status(status_code) == ErrorKind::ApiError,
{
}

/// The sentence that names the request which failed.
pub open spec fn failure_text(url: Seq<char>) -> Seq<char> {
    "Request to "@ + url + " failed"@
}

/// The message of the error for `status_code`: the failure sentence, marked
/// as unexpected where the status has no kind of its own.
pub open spec fn status_message(status_code: u16, url: Seq<char>) -> Seq<char> {
    if kind_of_status(status_code) == ErrorKind::ApiError {
        "Unexpected error: "@ + failure_text(url)
    } else {
        failure_text(url)
    }
}

/// How many redirects are followed when following is switched on.
pub const MAX_REDIRECTS: usize = 10;

/// What the transport does with a redirect.
#[derive(Debug, Clone, Copy, PartialEq, Eq, Structural)]
pub enum RedirectPolicy {
    /// Follow up to this many redirects.
    Limited(usize),
    /// Follow none: a redirect is handed back as the response.
    Stay,
}

/// A GET request that is ready to be sent.
#[derive(Debug, Clone)]
pub struct Request {
    /// The full URL, without the query.
    pub url: String,
    /// The resource path that the URL was made from. It names the request
    /// in error messages.
    pub resource: String,
    /// The query parameters, to be percent-encoded and appended on sending.
    pub query: Option<QueryParams>,
}

/// The settings of the transport and the rules of one exchange.
///
/// An exchange goes in three steps. [`HttpClient::get_json`] says what to
/// send. [`HttpClient::on_response`] takes what came of sending it and says
/// whether the body is to be read. [`HttpClient::on_body`] takes what came
/// of decoding the body and gives the final result.
#[derive(Debug, Clone)]
pub struct HttpClient {
    timeout: Duration,
    accept_invalid_certs: bool,
    redirect: RedirectPolicy,
}

impl HttpClient {
    /// The time allowed for a whole request.
    pub closed spec fn spec_timeout(self) -> Duration {
        self.timeout
    }

    /// Whether certificates that do not validate are accepted.
    pub closed spec fn spec_accept_invalid_certs(self) -> bool {
        self.accept_invalid_certs
    }

    /// What is done with a redirect.
    pub closed spec fn spec_redirect(self) -> RedirectPolicy {
        self.redirect
    }

    /// The transport settings for `config`: its timeout; invalid
    /// certificates accepted only if verification is switched off; up to
    /// [`MAX_REDIRECTS`] redirects followed, or none.
    pub fn new(config: ClientConfig) -> (client: HttpClient)
        ensures
            client.spec_timeout() == config.timeout,
            client.spec_accept_invalid_certs() == !config.ssl_verify,
            client.spec_redirect() == if config.follow_redirects {
                RedirectPolicy::Limited(MAX_REDIRECTS)
            } else {
                RedirectPolicy::Stay
            },
    {
        let redirect = if config.follow_redirects {
            RedirectPolicy::Limited(MAX_REDIRECTS)
        } else {
            RedirectPolicy::Stay
        };
        HttpClient {
            timeout: config.timeout,
            accept_invalid_certs: !config.ssl_verify,
            redirect,
        }
    }

    /// The time allowed for a whole request.
    pub fn timeout(&self) -> (timeout: Duration)
        ensures
            timeout == self.spec_timeout(),
    {
        self.timeout
    }

    /// Whether certificates that do not validate are accepted.
    pub fn accept_invalid_certs(&self) -> (accept: bool)
        ensures
            accept == self.spec_accept_invalid_certs(),
    {
        self.accept_invalid_certs
    }

    /// What is done with a redirect.
    pub fn redirect(&self) -> (policy: RedirectPolicy)
        ensures
            policy == self.spec_redirect(),
    {
        self.redirect
    }

    /// The error for a response whose status is no success. The status is
    /// kept in the error, and the message names the request by `url`.
    pub fn error_from_status(status_code: u16, url: &str) -> (error: NHLApiError)
        ensures
            error.spec_kind() == kind_of_status(status_code),
            error.spec_status_code() == Some(status_code),
            error.spec_message() == Some(status_message(status_code, url@)),
    {
        let message = String::from_str("Request to ").concat(url).concat(" failed");
        match status_code {
            404 => NHLApiError::ResourceNotFound { message, status_code },
            429 => NHLApiError::RateLimitExceeded { message, status_code },
            400 => NHLApiError::BadRequest { message, status_code },
            401 => NHLApiError::Unauthorized { message, status_code },
            500..=599 => NHLApiError::ServerError { message, status_code },
            _ => NHLApiError::ApiError {
                message: String::from_str("Unexpected error: ").concat(message.as_str()),
                status_code,
            },
        }
    }

    /// Joins a base URL and a resource path with exactly one slash between
    /// them. An empty resource gives the base back unchanged.
    pub fn build_url(base: &str, resource: &str) -> (url: String)
        ensures
            url@ == joined_url(base@, resource@),
    {
        let base_len = base.unicode_len();
        let resource_len = resource.unicode_len();
        if resource_len == 0 {
            return String::from_str(base);
        }
        proof {
            lemma_join_by_cases(base@, resource@);
            reveal_strlit("/");
        }
        let base_slash = base_len > 0 && base.get_char(base_len - 1) == '/';
        let resource_slash = resource.get_char(0) == '/';
        if base_slash && resource_slash {
            let rest = resource.substring_char(1, resource_len);
            assert(rest@ =~= resource@.drop_first());
            String::from_str(base).concat(rest)
        } else if !base_slash && !resource_slash {
            String::from_str(base).concat("/").concat(resource)
        } else {
            String::from_str(base).concat(resource)
        }
    }

    /// Reads the status of a response: a success lets the exchange go on,
    /// anything else ends it with the error for that status.
    pub fn handle_response(&self, status_code: u16, url: &str) -> (result: Result<(), NHLApiError>)
        ensures
            result is Ok <==> is_success(status_code),
            result matches Err(error) ==> {
                &&& error.spec_kind() == kind_of_status(status_code)
                &&& error.spec_status_code() == Some(status_code)
                &&& error.spec_message() == Some(status_message(status_code, url@))
            },
    {
        if 200 <= status_code && status_code <= 299 {
            return Ok(());
        }
        Err(Self::error_from_status(status_code, url))
    }

    /// The request for `resource` at `endpoint`: the URL is the endpoint's
    /// base joined with the resource, and the query parameters are passed on
    /// as they are.
    pub fn get_json(
        &self,
        endpoint: Endpoint,
        resource: &str,
        query_params: Option<QueryParams>,
    ) -> (request: Request)
        ensures
            request.url@ == joined_url(endpoint.base_url_text(), resource@),
            request.resource@ == resource@,
            request.query == query_params,
    {
        let url = Self::build_url(endpoint.base_url(), resource);
        Request { url, resource: String::from_str(resource), query: query_params }
    }

    /// What follows from sending `request`. A transport failure ends the
    /// exchange as a `RequestError` and is never classified by status. A
    /// response with a success status lets the body be read; any other
    /// status ends the exchange with the error for it, the body unread.
    pub fn on_response(&self, request: &Request, outcome: Result<u16, reqwest::Error>) -> (result:
        Result<(), NHLApiError>)
        ensures
            result is Ok <==> (outcome matches Ok(status_code) && is_success(status_code)),
            outcome matches Err(failure) ==> result == Err::<(), NHLApiError>(
                NHLApiError::RequestError(failure),
            ),
            outcome matches Ok(status_code) ==> (result matches Err(error) ==> {
                &&& error.spec_kind() == kind_of_status(status_code)
                &&& error.spec_status_code() == Some(status_code)
                &&& error.spec_message() == Some(status_message(status_code, request.resource@))
            }),
    {
        match outcome {
            Ok(status_code) => self.handle_response(status_code, request.resource.as_str()),
            Err(failure) => Err(NHLApiError::RequestError(failure)),
        }
    }

    /// What follows from decoding the body of a successful response: the
    /// decoded value, or a `JsonError` that carries the decoder's own error.
    pub fn on_body<T>(&self, decoded: Result<T, serde_json::Error>) -> (result: Result<
        T,
        NHLApiError,
    >)
        ensures
            decoded matches Ok(value) ==> result == Ok::<T, NHLApiError>(value),
            decoded matches Err(failure) ==> result == Err::<T, NHLApiError>(
                NHLApiError::JsonError(failure),
            ),
    {
        match decoded {
            Ok(value) => Ok(value),
            Err(failure) => Err(NHLApiError::JsonError(failure)),
        }
    }
}

} // verus!
