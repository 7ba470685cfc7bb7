//! The errors of the requests to the back end, and the texts they display.
//!
//! A request fails in one of three stages: it cannot be made or no reply
//! comes (`InitializeRequestError`), the reply has an unexpected status
//! (`DecipherResponseError`), or the reply cannot be read as a `Response`
//! (`ResponseError`). Errors that wrap another display the wrapped one's
//! text. Where the cause is an error of the HTTP client or of the JSON
//! reader, the variant holds that error's text.

use vstd::prelude::*;
use vstd::string::*;
use crate::status::{StatusCode, status_code_text};
use crate::text::{decimal_nat, push_decimal};

verus! {

/// An error of `url::Url::parse` or `url::Url::join`, by the text it
/// displays.
#[derive(Clone, Debug, PartialEq)]
pub struct UrlParseError {
    pub description: String,
}

impl View for UrlParseError {
    type V = Seq<char>;

    open spec fn view(&self) -> Seq<char> {
        self.description@
    }
}

#[derive(Clone, Debug, PartialEq)]
pub enum BuildRequestClientError {
    ReqwestError(String),
}

impl BuildRequestClientError {
    pub open spec fn message_spec(&self) -> Seq<char> {
        match self {
            BuildRequestClientError::ReqwestError(t) => t@,
        }
    }

    /// The text the error displays.
    pub fn message(&self) -> (r: String)
        ensures
            r@ == self.message_spec(),
    {
        match self {
            BuildRequestClientError::ReqwestError(t) => t.clone(),
        }
    }
}

/// A `BuildUrlError` by its plain values.
pub enum BuildUrlFailure {
    BadPortValue(u16),
    ParseError(Seq<char>),
}

#[derive(Clone, Debug, PartialEq)]
pub enum BuildUrlError {
    BadPortValue(u16),
    ParseError(UrlParseError),
}

impl View for BuildUrlError {
    type V = BuildUrlFailure;

    open spec fn view(&self) -> BuildUrlFailure {
        match self {
            BuildUrlError::BadPortValue(p) => BuildUrlFailure::BadPortValue(*p),
            BuildUrlError::ParseError(e) => BuildUrlFailure::ParseError(e@),
        }
    }
}

pub open spec fn bad_port_message(port: u16) -> Seq<char> {
    "Setting port value of '"@ + decimal_nat(port as nat)
        + "' caused the Url to have an invalid base."@
}

impl BuildUrlError {
    pub open spec fn message_spec(&self) -> Seq<char> {
        match self {
            BuildUrlError::BadPortValue(p) => bad_port_message(*p),
            BuildUrlError::ParseError(e) => e@,
        }
    }

    /// The text the error displays.
    pub fn message(&self) -> (r: String)
        ensures
            r@ == self.message_spec(),
    {
        match self {
            BuildUrlError::BadPortValue(p) => {
                let mut s = String::from_str("Setting port value of '");
                push_decimal(&mut s, *p as u32);
                s.append("' caused the Url to have an invalid base.");
                s
            },
            BuildUrlError::ParseError(e) => e.description.clone(),
        }
    }
}

#[derive(Clone, Debug, PartialEq)]
pub enum RequestResponseError {
    ReqwestError(String),
}

impl RequestResponseError {
    pub open spec fn message_spec(&self) -> Seq<char> {
        match self {
            RequestResponseError::ReqwestError(t) => t@,
        }
    }

    /// The text the error displays.
    pub fn message(&self) -> (r: String)
        ensures
            r@ == self.message_spec(),
    {
        match self {
            RequestResponseError::ReqwestError(t) => t.clone(),
        }
    }
}

/// A request could not be made, or no reply came.
#[derive(Clone, Debug, PartialEq)]
pub enum InitializeRequestError {
    BuildRequestClientError(BuildRequestClientError),
    BuildUrlError(BuildUrlError),
    RequestResponseError(String),
}

impl InitializeRequestError {
    pub open spec fn message_spec(&self) -> Seq<char> {
        match self {
            InitializeRequestError::BuildRequestClientError(e) => e.message_spec(),
            InitializeRequestError::BuildUrlError(e) => e.message_spec(),
            InitializeRequestError::RequestResponseError(t) => t@,
        }
    }

    /// The text the error displays.
    pub fn message(&self) -> (r: String)
        ensures
            r@ == self.message_spec(),
    {
        match self {
            InitializeRequestError::BuildRequestClientError(e) => e.message(),
            InitializeRequestError::BuildUrlError(e) => e.message(),
            InitializeRequestError::RequestResponseError(t) => t.clone(),
        }
    }
}

/// The reply came with a status that the request did not expect.
#[derive(Clone, Debug, PartialEq)]
pub enum DecipherResponseError {
    UnexpectedResponseCode(StatusCode),
}

pub open spec fn unexpected_code_message(code: u16) -> Seq<char> {
    "Received unexpected response status code: "@ + status_code_text(code)
}

impl DecipherResponseError {
    pub open spec fn message_spec(&self) -> Seq<char> {
        match self {
            DecipherResponseError::UnexpectedResponseCode(sc) => unexpected_code_message(sc@),
        }
    }

    /// The text the error displays.
    pub fn message(&self) -> (r: String)
        ensures
            r@ == self.message_spec(),
    {
        match self {
            DecipherResponseError::UnexpectedResponseCode(sc) => {
                let s = String::from_str("Received unexpected response status code: ");
                let t = sc.to_text();
                s.concat(t.as_str())
            },
        }
    }
}

pub open spec fn no_data_field_message() -> Seq<char> {
    "The response from the back end did not include the expected data field."@
}

/// The reply could not be read as a `Response`, or lacked its data.
#[derive(Clone, Debug, PartialEq)]
pub enum ResponseError {
    DeserializeError(String),
    SerdeError(String),
    NoDataField,
}

impl ResponseError {
    pub open spec fn message_spec(&self) -> Seq<char> {
        match self {
            ResponseError::DeserializeError(t) => t@,
            ResponseError::SerdeError(t) => t@,
            ResponseError::NoDataField => no_data_field_message(),
        }
    }

    /// The text the error displays.
    pub fn message(&self) -> (r: String)
        ensures
            r@ == self.message_spec(),
    {
        match self {
            ResponseError::DeserializeError(t) => t.clone(),
            ResponseError::SerdeError(t) => t.clone(),
            ResponseError::NoDataField => String::from_str(
                "The response from the back end did not include the expected data field.",
            ),
        }
    }
}

#[derive(Clone, Debug, PartialEq)]
pub enum GetAndProcessError {
    InitiateRequestError(InitializeRequestError),
    DecipherResponseError(DecipherResponseError),
    ResponseError(ResponseError),
    SerdeError(String),
}

impl GetAndProcessError {
    pub open spec fn message_spec(&self) -> Seq<char> {
        match self {
            GetAndProcessError::InitiateRequestError(e) => e.message_spec(),
            GetAndProcessError::DecipherResponseError(e) => e.message_spec(),
            GetAndProcessError::ResponseError(e) => e.message_spec(),
            GetAndProcessError::SerdeError(t) => t@,
        }
    }

    /// The text the error displays.
    pub fn message(&self) -> (r: String)
        ensures
            r@ == self.message_spec(),
    {
        match self {
            GetAndProcessError::InitiateRequestError(e) => e.message(),
            GetAndProcessError::DecipherResponseError(e) => e.message(),
            GetAndProcessError::ResponseError(e) => e.message(),
            GetAndProcessError::SerdeError(t) => t.clone(),
        }
    }
}

#[derive(Clone, Debug, PartialEq)]
pub enum PatchValueError {
    InitiateRequestError(InitializeRequestError),
    ResponseError(ResponseError),
}

impl PatchValueError {
    pub open spec fn message_spec(&self) -> Seq<char> {
        match self {
            PatchValueError::InitiateRequestError(e) => e.message_spec(),
            PatchValueError::ResponseError(e) => e.message_spec(),
        }
    }

    /// The text the error displays.
    pub fn message(&self) -> (r: String)
        ensures
            r@ == self.message_spec(),
    {
        match self {
            PatchValueError::InitiateRequestError(e) => e.message(),
            PatchValueError::ResponseError(e) => e.message(),
        }
    }
}

#[derive(Clone, Debug, PartialEq)]
pub enum PostValueError {
    InitiateRequestError(InitializeRequestError),
    ResponseError(ResponseError),
}

impl PostValueError {
    pub open spec fn message_spec(&self) -> Seq<char> {
        match self {
            PostValueError::InitiateRequestError(e) => e.message_spec(),
            PostValueError::ResponseError(e) => e.message_spec(),
        }
    }

    /// The text the error displays.
    pub fn message(&self) -> (r: String)
        ensures
            r@ == self.message_spec(),
    {
        match self {
            PostValueError::InitiateRequestError(e) => e.message(),
            PostValueError::ResponseError(e) => e.message(),
        }
    }
}

} // verus!
