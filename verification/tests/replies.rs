use blog_frontend::errors::{
    DecipherResponseError, GetAndProcessError, InitializeRequestError, PatchValueError, PostValueError,
    ResponseError,
};
use blog_frontend::models::Response;
use blog_frontend::requests::{
    get_and_process_data, get_reads_body, patch_reads_body, patch_value, post_value, post_value_get_status_code,
    BackendReply,
};
use blog_frontend::status::StatusCode;

fn status(code: u16) -> StatusCode {
    StatusCode::from_u16(code).unwrap()
}

fn body_response(data: Option<&str>) -> Response {
    Response {
        status: "Ok".to_string(),
        message: Some("fine".to_string()),
        location: None,
        data: data.map(|d| d.to_string()),
        code: None,
        errors: None,
        status_code: None,
    }
}

fn reply(code: u16, body: &str, parsed: Result<Response, String>) -> BackendReply {
    BackendReply { status: status(code), body: Ok(body.to_string()), parsed }
}

#[test]
fn empty_body_is_a_success() {
    let r = Response::new(status(204), Ok(String::new()), Err("EOF".to_string())).unwrap();
    assert_eq!(r.status, "Success");
    assert_eq!(r.message, None);
    assert_eq!(r.location, None);
    assert_eq!(r.data, None);
    assert_eq!(r.code, None);
    assert_eq!(r.errors, None);
    assert_eq!(r.status_code, Some(204));
}

#[test]
fn a_body_is_read_and_records_the_status() {
    let r = Response::new(status(201), Ok("{}".to_string()), Ok(body_response(Some("[1]")))).unwrap();
    assert_eq!(r, Response { status_code: Some(201), ..body_response(Some("[1]")) });
}

#[test]
fn unreadable_bodies_are_errors() {
    assert_eq!(
        Response::new(status(200), Ok("nope".to_string()), Err("expected value".to_string())),
        Err(ResponseError::SerdeError("expected value".to_string()))
    );
    assert_eq!(
        Response::new(status(200), Err("connection reset".to_string()), Ok(body_response(None))),
        Err(ResponseError::DeserializeError("connection reset".to_string()))
    );
}

#[test]
fn data_field() {
    assert_eq!(Response::get_data(Ok(body_response(Some("{\"a\":1}")))), Ok("{\"a\":1}".to_string()));
    assert_eq!(Response::get_data(Ok(body_response(None))), Err(ResponseError::NoDataField));
    assert_eq!(Response::get_data(Err(ResponseError::NoDataField)), Err(ResponseError::NoDataField));
}

#[test]
fn missing_errors_read_as_json_text() {
    assert_eq!(Response::error_text(None), "\"Expected error not present\"");
    assert_eq!(Response::error_text(Some("{\"e\":1}".to_string())), "{\"e\":1}");
}

#[test]
fn get_checks_the_status_before_the_body() {
    let r = get_and_process_data(Ok(reply(404, "{}", Ok(body_response(Some("1"))))));
    assert_eq!(
        r,
        Err(GetAndProcessError::DecipherResponseError(DecipherResponseError::UnexpectedResponseCode(status(404))))
    );
    assert_eq!(get_and_process_data(Ok(reply(200, "{}", Ok(body_response(Some("1")))))), Ok("1".to_string()));
    assert_eq!(
        get_and_process_data(Ok(reply(200, "", Ok(body_response(Some("1")))))),
        Err(GetAndProcessError::ResponseError(ResponseError::NoDataField))
    );
    assert_eq!(
        get_and_process_data(Ok(reply(200, "{}", Ok(body_response(None))))),
        Err(GetAndProcessError::ResponseError(ResponseError::NoDataField))
    );
    assert_eq!(
        get_and_process_data(Ok(reply(200, "x", Err("bad".to_string())))),
        Err(GetAndProcessError::ResponseError(ResponseError::SerdeError("bad".to_string())))
    );
    let init = InitializeRequestError::RequestResponseError("refused".to_string());
    assert_eq!(get_and_process_data(Err(init.clone())), Err(GetAndProcessError::InitiateRequestError(init)));
}

#[test]
fn post_reads_every_reply() {
    let r = post_value(Ok(reply(409, "{}", Ok(body_response(None))))).unwrap();
    assert_eq!(r.status_code, Some(409));
    assert_eq!(r.message, Some("fine".to_string()));
    assert_eq!(
        post_value(Ok(reply(500, "x", Err("bad".to_string())))),
        Err(PostValueError::ResponseError(ResponseError::SerdeError("bad".to_string())))
    );
    let init = InitializeRequestError::RequestResponseError("refused".to_string());
    assert_eq!(post_value(Err(init.clone())), Err(PostValueError::InitiateRequestError(init)));
}

#[test]
fn post_status_code_is_the_status() {
    assert_eq!(post_value_get_status_code(Ok(status(204))), Ok(204));
    let init = InitializeRequestError::RequestResponseError("refused".to_string());
    assert_eq!(post_value_get_status_code(Err(init.clone())), Err(PostValueError::InitiateRequestError(init)));
}

#[test]
fn patch_success_has_no_response() {
    assert_eq!(patch_value(Ok(reply(204, "", Err("EOF".to_string())))), Ok(None));
    assert_eq!(patch_value(Ok(reply(200, "{}", Ok(body_response(None))))), Ok(None));
    let r = patch_value(Ok(reply(403, "{}", Ok(body_response(None))))).unwrap().unwrap();
    assert_eq!(r.status_code, Some(403));
    let empty = patch_value(Ok(reply(401, "", Err("EOF".to_string())))).unwrap().unwrap();
    assert_eq!(empty.status, "Success");
    assert_eq!(empty.status_code, Some(401));
    assert_eq!(
        patch_value(Ok(reply(400, "x", Err("bad".to_string())))),
        Err(PatchValueError::ResponseError(ResponseError::SerdeError("bad".to_string())))
    );
}

#[test]
fn bodies_are_read_where_they_are_used() {
    assert!(get_reads_body(&status(200)));
    assert!(!get_reads_body(&status(404)));
    assert!(patch_reads_body(&status(400)));
    assert!(!patch_reads_body(&status(204)));
}
