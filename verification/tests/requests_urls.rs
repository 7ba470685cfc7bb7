use blog_frontend::errors::{BuildRequestClientError, BuildUrlError, InitializeRequestError, UrlParseError};
use blog_frontend::requests::{apply_port, blog_url, build_url, delete_user_url, join_path, prepare_request, session_url};

#[test]
fn api_urls_join_the_path_to_the_api_base_on_port_8001() {
    assert_eq!(build_url("users").unwrap(), "http://back:8001/api/users");
    assert_eq!(build_url("posts/3").unwrap(), "http://back:8001/api/posts/3");
    assert_eq!(build_url("tags?step=100").unwrap(), "http://back:8001/api/tags?step=100");
    assert_eq!(build_url("").unwrap(), "http://back:8001/api/");
}

#[test]
fn an_absolute_path_replaces_the_base() {
    assert_eq!(build_url("/users").unwrap(), "http://back:8001/users");
}

#[test]
fn a_bad_path_is_a_parse_error() {
    let e = build_url("http://[::1").unwrap_err();
    assert_eq!(e, BuildUrlError::ParseError(UrlParseError { description: "invalid IPv6 address".to_string() }));
}

#[test]
fn base_errors_pass_through() {
    let e = UrlParseError { description: "relative URL without a base".to_string() };
    assert_eq!(join_path(Err(e.clone()), "users"), Err(e.clone()));
    assert_eq!(apply_port(Err(e.clone()), 8001), Err(BuildUrlError::ParseError(e)));
}

#[test]
fn a_url_without_host_gets_no_port() {
    assert_eq!(apply_port(Ok("mailto:someone@back".to_string()), 8001), Err(BuildUrlError::BadPortValue(8001)));
    assert_eq!(apply_port(Ok("http://back/x".to_string()), 8001), Ok("http://back:8001/x".to_string()));
}

#[test]
fn the_default_port_is_not_written() {
    assert_eq!(apply_port(Ok("http://back/x".to_string()), 80), Ok("http://back/x".to_string()));
}

#[test]
fn join_relative_to_base() {
    assert_eq!(
        join_path(Ok("http://back/api/".to_string()), "users/1"),
        Ok("http://back/api/users/1".to_string())
    );
}

#[test]
fn delete_and_blog_urls() {
    assert_eq!(delete_user_url(5).unwrap(), "http://back:8001/users/5");
    assert_eq!(delete_user_url(-5).unwrap(), "http://back:8001/users/-5");
    assert_eq!(blog_url().unwrap(), "http://back:8001/");
    assert_eq!(session_url().unwrap(), "http://back:8001/users/session");
}

#[test]
fn prepare_request_builds_the_client_first() {
    assert_eq!(
        prepare_request(Err("no tls".to_string()), "users"),
        Err(InitializeRequestError::BuildRequestClientError(BuildRequestClientError::ReqwestError("no tls".to_string())))
    );
    assert_eq!(prepare_request(Ok(()), "users"), Ok("http://back:8001/api/users".to_string()));
    assert!(matches!(
        prepare_request(Ok(()), "http://[::1"),
        Err(InitializeRequestError::BuildUrlError(BuildUrlError::ParseError(_)))
    ));
}
