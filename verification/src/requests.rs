//! The requests to the back end: the URL each is sent to, and what the
//! reply of the back end makes of it.
//!
//! A request fails in one of three stages: it cannot be made or no reply
//! comes (`InitializeRequestError`), the reply has a status the request did
//! not expect (`DecipherResponseError`), or the reply cannot be read as a
//! `Response` (`ResponseError`).

use vstd::prelude::*;
use vstd::string::*;
use crate::errors::{
    BuildRequestClientError, BuildUrlError, BuildUrlFailure, DecipherResponseError, GetAndProcessError,
    InitializeRequestError, PatchValueError, PostValueError, ResponseError, UrlParseError,
};
use crate::models::Response;
use crate::status::StatusCode;
use crate::text::{decimal_int, decimal_i32};

verus! {

/// What `url::Url::parse(input)` gives, by plain text: the serialization of
/// the URL, or the text that its `ParseError` displays.
pub uninterp spec fn url_parse(input: Seq<char>) -> Result<Seq<char>, Seq<char>>;

/// What `url::Url::join(&base, input)` gives for the URL that `base`
/// serializes, by plain text: the serialization of the joined URL, or the
/// text that the `ParseError` displays.
pub uninterp spec fn url_join(base: Seq<char>, input: Seq<char>) -> Result<Seq<char>, Seq<char>>;

/// The serialization of the URL that `url` serializes after
/// `url::Url::set_port(Some(port))`, or `None` where the call refuses.
pub uninterp spec fn url_set_port(url: Seq<char>, port: u16) -> Option<Seq<char>>;

pub open spec fn url_result_view(r: Result<String, UrlParseError>) -> Result<Seq<char>, Seq<char>> {
    match r {
        Ok(s) => Ok(s@),
        Err(e) => Err(e@),
    }
}

pub open spec fn built_url_view(r: Result<String, BuildUrlError>) -> Result<Seq<char>, BuildUrlFailure> {
    match r {
        Ok(s) => Ok(s@),
        Err(e) => Err(e@),
    }
}

pub open spec fn option_text_view(r: Option<String>) -> Option<Seq<char>> {
    match r {
        Some(s) => Some(s@),
        None => None,
    }
}

/// `url::Url::parse`, its URL given by its serialization (`String::from`)
/// and its error by the text it displays. The result is given the name
/// `url_parse`.
#[verifier::external_body]
fn parse_url(input: &str) -> (r: Result<String, UrlParseError>)
    ensures
        url_result_view(r) == url_parse(input@),
{
    match url::Url::parse(input) {
        Ok(u) => Ok(String::from(u)),
        Err(e) => Err(UrlParseError { description: e.to_string() }),
    }
}

/// `url::Url::join` on the URL that `base` serializes (read back with
/// `Url::parse`), its URL given by its serialization and its error by the
/// text it displays. The result is given the name `url_join`.
#[verifier::external_body]
fn join_url(base: &str, input: &str) -> (r: Result<String, UrlParseError>)
    ensures
        url_result_view(r) == url_join(base@, input@),
{
    match url::Url::parse(base) {
        Ok(b) => match b.join(input) {
            Ok(u) => Ok(String::from(u)),
            Err(e) => Err(UrlParseError { description: e.to_string() }),
        },
        Err(e) => Err(UrlParseError { description: e.to_string() }),
    }
}

/// `url::Url::set_port(Some(port))` on the URL that `url` serializes (read
/// back with `Url::parse`), giving the serialization after the call, or
/// `None` where the call refuses (or `url` does not read back). The result
/// is given the name `url_set_port`.
#[verifier::external_body]
fn set_url_port(url: &str, port: u16) -> (r: Option<String>)
    ensures
        option_text_view(r) == url_set_port(url@, port),
{
    match url::Url::parse(url) {
        Ok(mut u) => match u.set_port(Some(port)) {
            Ok(()) => Some(String::from(u)),
            Err(()) => None,
        },
        Err(_) => None,
    }
}

/// The base of the API of the back end.
pub open spec fn api_base() -> Seq<char> {
    "http://back/api/"@
}

/// The port the back end listens on.
pub open spec fn backend_port() -> u16 {
    8001
}

pub open spec fn join_spec(base: Result<Seq<char>, Seq<char>>, path: Seq<char>) -> Result<Seq<char>, Seq<char>> {
    match base {
        Err(t) => Err(t),
        Ok(b) => url_join(b, path),
    }
}

pub open spec fn port_spec(joined: Result<Seq<char>, Seq<char>>, port: u16) -> Result<Seq<char>, BuildUrlFailure> {
    match joined {
        Err(t) => Err(BuildUrlFailure::ParseError(t)),
        Ok(u) => match url_set_port(u, port) {
            None => Err(BuildUrlFailure::BadPortValue(port)),
            Some(p) => Ok(p),
        },
    }
}

/// The URL of a path of the API: the path joined to the base of the API,
/// with the port of the back end.
pub open spec fn built_url(path: Seq<char>) -> Result<Seq<char>, BuildUrlFailure> {
    port_spec(join_spec(url_parse(api_base()), path), backend_port())
}

/// Joins `path` to a parsed base URL; an error of the base passes through.
pub fn join_path(base: Result<String, UrlParseError>, path: &str) -> (r: Result<String, UrlParseError>)
    ensures
        url_result_view(r) == join_spec(url_result_view(base), path@),
{
    match base {
        Err(e) => Err(e),
        Ok(b) => join_url(b.as_str(), path),
    }
}

/// Sets the port of a URL; a parse error becomes `ParseError`, and a URL
/// whose port cannot be set gives `BadPortValue` with the port.
pub fn apply_port(url: Result<String, UrlParseError>, port: u16) -> (r: Result<String, BuildUrlError>)
    ensures
        built_url_view(r) == port_spec(url_result_view(url), port),
{
    match url {
        Err(e) => Err(BuildUrlError::ParseError(e)),
        Ok(u) => match set_url_port(u.as_str(), port) {
            None => Err(BuildUrlError::BadPortValue(port)),
            Some(p) => Ok(p),
        },
    }
}

/// The URL of `path` on the API of the back end.
pub fn build_url(path: &str) -> (r: Result<String, BuildUrlError>)
    ensures
        built_url_view(r) == built_url(path@),
{
    let base = parse_url("http://back/api/");
    apply_port(join_path(base, path), 8001)
}

/// The URL of a user, for deleting it: `http://back/users/<id>` with the
/// port of the back end.
pub fn delete_user_url(id: i32) -> (r: Result<String, BuildUrlError>)
    ensures
        built_url_view(r) == port_spec(url_parse("http://back/users/"@ + decimal_int(id as int)), backend_port()),
{
    let target = String::from_str("http://back/users/").concat(decimal_i32(id).as_str());
    apply_port(parse_url(target.as_str()), 8001)
}

/// The URL of the blog of a user: the back end's root with its port.
pub fn blog_url() -> (r: Result<String, BuildUrlError>)
    ensures
        built_url_view(r) == port_spec(url_parse("http://back"@), backend_port()),
{
    apply_port(parse_url("http://back"), 8001)
}

/// The URL at which the back end opens sessions: `http://back/users/session`
/// with the port of the back end.
pub fn session_url() -> (r: Result<String, BuildUrlError>)
    ensures
        built_url_view(r) == port_spec(url_parse("http://back/users/session"@), backend_port()),
{
    apply_port(parse_url("http://back/users/session"), 8001)
}

/// Prepares a request to `path`: `client` is the outcome of building the
/// HTTP client (the client's error text where it failed), and the URL is
/// built after it.
pub fn prepare_request(client: Result<(), String>, path: &str) -> (r: Result<String, InitializeRequestError>)
    ensures
        match client {
            Err(t) => r == Err::<String, InitializeRequestError>(
                InitializeRequestError::BuildRequestClientError(BuildRequestClientError::ReqwestError(t))),
            Ok(_) => match built_url(path@) {
                Ok(u) => r matches Ok(s) && s@ == u,
                Err(f) => r matches Err(InitializeRequestError::BuildUrlError(e)) && e@ == f,
            },
        },
{
    match client {
        Err(t) => Err(InitializeRequestError::BuildRequestClientError(BuildRequestClientError::ReqwestError(t))),
        Ok(_) => match build_url(path) {
            Ok(u) => Ok(u),
            Err(e) => Err(InitializeRequestError::BuildUrlError(e)),
        },
    }
}

/// A reply of the back end: its status, its body text (or the client's
/// error where it could not be read), and the body read as JSON (or the
/// reader's error).
pub struct BackendReply {
    pub status: StatusCode,
    pub body: Result<String, String>,
    pub parsed: Result<Response, String>,
}

/// How a reply reads as a `Response`: what `Response::new` gives for it.
pub open spec fn response_read(status: u16, body: Result<String, String>, parsed: Result<Response, String>, r: Result<Response, ResponseError>) -> bool {
    match body {
        Err(t) => r == Err::<Response, ResponseError>(ResponseError::DeserializeError(t)),
        Ok(b) => if b@.len() == 0 {
            r matches Ok(resp) && crate::models::is_bodiless_success(resp, status)
        } else {
            match parsed {
                Err(t) => r == Err::<Response, ResponseError>(ResponseError::SerdeError(t)),
                Ok(p) => r == Ok::<Response, ResponseError>(Response { status_code: Some(status), ..p }),
            }
        },
    }
}

/// Reading a reply records its status: whatever the body, a `Response`
/// that comes out of it carries the status code of the reply.
pub proof fn read_reply_records_status(status: u16, body: Result<String, String>, parsed: Result<Response, String>, r: Result<Response, ResponseError>)
    requires
        response_read(status, body, parsed, r),
        r is Ok,
    ensures
        r->Ok_0.status_code == Some(status),
{
}

/// A reply read from a non-empty body keeps every field that the body
/// gave, and only gets the status code of the reply.
pub proof fn read_reply_keeps_body_fields(status: u16, b: String, p: Response, r: Result<Response, ResponseError>)
    requires
        response_read(status, Ok(b), Ok(p), r),
        b@.len() > 0,
    ensures
        r is Ok,
        r->Ok_0.status == p.status,
        r->Ok_0.message == p.message,
        r->Ok_0.location == p.location,
        r->Ok_0.data == p.data,
        r->Ok_0.code == p.code,
        r->Ok_0.errors == p.errors,
        r->Ok_0.status_code == Some(status),
{
}

/// The statuses that count as success are exactly those of 200-299.
pub proof fn success_is_2xx(code: u16)
    ensures
        is_success_code(code) <==> (200 <= code && code < 300),
{
}

pub open spec fn is_success_code(code: u16) -> bool {
    200 <= code < 300
}

/// Whether the body of the reply to a GET is read: only for a 2xx status,
/// the only one whose data `get_and_process_data` takes.
pub fn get_reads_body(status: &StatusCode) -> (r: bool)
    ensures
        r == is_success_code(status@),
{
    status.is_success()
}

/// Whether the body of the reply to a PATCH is read: only for a status
/// outside 2xx, the only one that `patch_value` reads as a `Response`.
pub fn patch_reads_body(status: &StatusCode) -> (r: bool)
    ensures
        r == !is_success_code(status@),
{
    !status.is_success()
}

/// The data of a GET: a reply with a status outside 2xx is an unexpected
/// code; otherwise the data of the reply as JSON text, or why there is
/// none.
pub fn get_and_process_data(sent: Result<BackendReply, InitializeRequestError>) -> (r: Result<String, GetAndProcessError>)
    ensures
        match sent {
            Err(e) => r == Err::<String, GetAndProcessError>(GetAndProcessError::InitiateRequestError(e)),
            Ok(rep) => if !is_success_code(rep.status@) {
                r == Err::<String, GetAndProcessError>(GetAndProcessError::DecipherResponseError(
                    DecipherResponseError::UnexpectedResponseCode(rep.status)))
            } else {
                match rep.body {
                    Err(t) => r == Err::<String, GetAndProcessError>(
                        GetAndProcessError::ResponseError(ResponseError::DeserializeError(t))),
                    Ok(b) => if b@.len() == 0 {
                        r == Err::<String, GetAndProcessError>(GetAndProcessError::ResponseError(ResponseError::NoDataField))
                    } else {
                        match rep.parsed {
                            Err(t) => r == Err::<String, GetAndProcessError>(
                                GetAndProcessError::ResponseError(ResponseError::SerdeError(t))),
                            Ok(p) => match p.data {
                                Some(d) => r == Ok::<String, GetAndProcessError>(d),
                                None => r == Err::<String, GetAndProcessError>(
                                    GetAndProcessError::ResponseError(ResponseError::NoDataField)),
                            },
                        }
                    },
                }
            },
        },
{
    match sent {
        Err(e) => Err(GetAndProcessError::InitiateRequestError(e)),
        Ok(rep) => {
            if !rep.status.is_success() {
                return Err(GetAndProcessError::DecipherResponseError(
                    DecipherResponseError::UnexpectedResponseCode(rep.status),
                ));
            }
            match Response::get_data(Response::new(rep.status, rep.body, rep.parsed)) {
                Ok(d) => Ok(d),
                Err(e) => Err(GetAndProcessError::ResponseError(e)),
            }
        },
    }
}

/// The reply to a POST, read as a `Response` whatever its status.
pub fn post_value(sent: Result<BackendReply, InitializeRequestError>) -> (r: Result<Response, PostValueError>)
    ensures
        match sent {
            Err(e) => r == Err::<Response, PostValueError>(PostValueError::InitiateRequestError(e)),
            Ok(rep) => match r {
                Ok(resp) => response_read(rep.status@, rep.body, rep.parsed, Ok(resp)),
                Err(PostValueError::ResponseError(e)) => response_read(rep.status@, rep.body, rep.parsed, Err(e)),
                Err(PostValueError::InitiateRequestError(_)) => false,
            },
        },
{
    match sent {
        Err(e) => Err(PostValueError::InitiateRequestError(e)),
        Ok(rep) => match Response::new(rep.status, rep.body, rep.parsed) {
            Ok(resp) => Ok(resp),
            Err(e) => Err(PostValueError::ResponseError(e)),
        },
    }
}

/// The status code of the reply to a POST, whatever it is.
pub fn post_value_get_status_code(sent: Result<StatusCode, InitializeRequestError>) -> (r: Result<u16, PostValueError>)
    ensures
        match sent {
            Err(e) => r == Err::<u16, PostValueError>(PostValueError::InitiateRequestError(e)),
            Ok(s) => r == Ok::<u16, PostValueError>(s@),
        },
{
    match sent {
        Err(e) => Err(PostValueError::InitiateRequestError(e)),
        Ok(s) => Ok(s.as_u16()),
    }
}

/// The reply to a PATCH: `None` for a 2xx status, whose reply has no body;
/// otherwise the reply read as a `Response`.
pub fn patch_value(sent: Result<BackendReply, InitializeRequestError>) -> (r: Result<Option<Response>, PatchValueError>)
    ensures
        match sent {
            Err(e) => r == Err::<Option<Response>, PatchValueError>(PatchValueError::InitiateRequestError(e)),
            Ok(rep) => if is_success_code(rep.status@) {
                r == Ok::<Option<Response>, PatchValueError>(None)
            } else {
                match r {
                    Ok(Some(resp)) => response_read(rep.status@, rep.body, rep.parsed, Ok(resp)),
                    Ok(None) => false,
                    Err(PatchValueError::ResponseError(e)) => response_read(rep.status@, rep.body, rep.parsed, Err(e)),
                    Err(PatchValueError::InitiateRequestError(_)) => false,
                }
            },
        },
{
    match sent {
        Err(e) => Err(PatchValueError::InitiateRequestError(e)),
        Ok(rep) => {
            if !rep.status.is_success() {
                return match Response::new(rep.status, rep.body, rep.parsed) {
                    Ok(resp) => Ok(Some(resp)),
                    Err(e) => Err(PatchValueError::ResponseError(e)),
                };
            }
            Ok(None)
        },
    }
}

} // verus!
