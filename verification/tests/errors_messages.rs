use blog_frontend::errors::{
    BuildRequestClientError, BuildUrlError, DecipherResponseError, GetAndProcessError,
    InitializeRequestError, PatchValueError, PostValueError, RequestResponseError, ResponseError,
    UrlParseError,
};
use blog_frontend::post::GetExisitingPostError;
use blog_frontend::status::StatusCode;

#[test]
fn bad_port_message_names_the_port() {
    assert_eq!(
        BuildUrlError::BadPortValue(8001).message(),
        "Setting port value of '8001' caused the Url to have an invalid base."
    );
}

#[test]
fn wrapping_errors_show_the_wrapped_text() {
    let parse = UrlParseError { description: "empty host".to_string() };
    let init = InitializeRequestError::BuildUrlError(BuildUrlError::ParseError(parse));
    assert_eq!(init.message(), "empty host");
    assert_eq!(GetAndProcessError::InitiateRequestError(init.clone()).message(), "empty host");
    assert_eq!(PatchValueError::InitiateRequestError(init.clone()).message(), "empty host");
    assert_eq!(PostValueError::InitiateRequestError(init).message(), "empty host");
    let client = BuildRequestClientError::ReqwestError("no client".to_string());
    assert_eq!(client.message(), "no client");
    assert_eq!(InitializeRequestError::BuildRequestClientError(client).message(), "no client");
    assert_eq!(InitializeRequestError::RequestResponseError("refused".to_string()).message(), "refused");
    assert_eq!(RequestResponseError::ReqwestError("reset".to_string()).message(), "reset");
}

#[test]
fn unexpected_code_message_has_reason() {
    let e = DecipherResponseError::UnexpectedResponseCode(StatusCode::from_u16(401).unwrap());
    assert_eq!(e.message(), "Received unexpected response status code: 401 Unauthorized");
    assert_eq!(
        GetAndProcessError::DecipherResponseError(e).message(),
        "Received unexpected response status code: 401 Unauthorized"
    );
}

#[test]
fn response_error_messages() {
    assert_eq!(
        ResponseError::NoDataField.message(),
        "The response from the back end did not include the expected data field."
    );
    assert_eq!(ResponseError::SerdeError("bad json".to_string()).message(), "bad json");
    assert_eq!(ResponseError::DeserializeError("cut".to_string()).message(), "cut");
    assert_eq!(GetAndProcessError::SerdeError("wrong type".to_string()).message(), "wrong type");
    assert_eq!(
        PatchValueError::ResponseError(ResponseError::NoDataField).message(),
        "The response from the back end did not include the expected data field."
    );
}

#[test]
fn empty_post_list_message() {
    assert_eq!(
        GetExisitingPostError::EmptyVec.message(),
        "The backend unexpectedly returned an empty set of posts"
    );
    let e = GetExisitingPostError::GetAndProcessError(GetAndProcessError::SerdeError("x".to_string()));
    assert_eq!(e.message(), "x");
}
