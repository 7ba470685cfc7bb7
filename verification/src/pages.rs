//! What a handler of the front end answers: a page to render, with the data
//! it shows, or a redirect.

use vstd::prelude::*;
use vstd::string::*;
use crate::errors::{DecipherResponseError, GetAndProcessError};
use crate::models::{PostAndTag, Response, Tag, UserWithoutPHC};
use crate::text::decimal_nat;

verus! {

/// The templates of the front end.
#[derive(Clone, Copy, Debug, PartialEq, Eq, Structural)]
pub enum Template {
    Post,
    Login,
    User,
    UpdatePw,
    Tags,
    EditPost,
    NewPost,
    ListOfUsers,
    BadBackendResponse,
    NotFound,
    ServerError,
    ErrorDefault,
}

impl Template {
    /// The path of the template among the templates.
    pub open spec fn name_spec(self) -> Seq<char> {
        match self {
            Template::Post => "post"@,
            Template::Login => "login"@,
            Template::User => "user"@,
            Template::UpdatePw => "update_pw"@,
            Template::Tags => "tags"@,
            Template::EditPost => "admin/edit_post"@,
            Template::NewPost => "admin/new_post"@,
            Template::ListOfUsers => "admin/list_of_users"@,
            Template::BadBackendResponse => "error/bad_backend_response"@,
            Template::NotFound => "error/404"@,
            Template::ServerError => "error/500"@,
            Template::ErrorDefault => "error/default"@,
        }
    }

    /// The path of the template among the templates.
    pub fn name(&self) -> (r: &'static str)
        ensures
            r@ == self.name_spec(),
    {
        match self {
            Template::Post => "post",
            Template::Login => "login",
            Template::User => "user",
            Template::UpdatePw => "update_pw",
            Template::Tags => "tags",
            Template::EditPost => "admin/edit_post",
            Template::NewPost => "admin/new_post",
            Template::ListOfUsers => "admin/list_of_users",
            Template::BadBackendResponse => "error/bad_backend_response",
            Template::NotFound => "error/404",
            Template::ServerError => "error/500",
            Template::ErrorDefault => "error/default",
        }
    }
}

/// The data that a page shows, by the names the templates read.
#[derive(Clone, Debug, PartialEq)]
pub enum Context {
    /// Nothing.
    Empty,
    /// `messages`: texts to show.
    Messages(Vec<String>),
    /// `response`: a text.
    Text(String),
    /// `response`: a status code.
    Code(u16),
    /// `response`: a status code, or none.
    MaybeCode(Option<u16>),
    /// `response`: a reply of the back end.
    BackendResponse(Option<Response>),
    /// `user`: a user.
    Profile(UserWithoutPHC),
    /// `user`: a user, and `admin`: true.
    AdminProfile(UserWithoutPHC),
    /// `users`: the users.
    Users(Vec<UserWithoutPHC>),
    /// `tags`: the tags.
    Tags(Vec<Tag>),
    /// `pat`: a post with its tags, and `available_tags`: the tags.
    EditPost(PostAndTag, Vec<Tag>),
    /// `available_tags`: the tags.
    NewPost(Vec<Tag>),
    /// The submitted form, with what is wrong with it.
    FormErrors,
}

/// The answer of a handler.
#[derive(Clone, Debug, PartialEq)]
pub enum Reply {
    Redirect(String),
    Render(Template, Context),
}

/// The reply renders `t` with the text `text` as `response`.
pub open spec fn renders_text(r: Reply, t: Template, text: Seq<char>) -> bool {
    r matches Reply::Render(tt, Context::Text(s)) && tt == t && s@ == text
}

/// The reply renders `t` with the one message `m`.
pub open spec fn renders_message(r: Reply, t: Template, m: Seq<char>) -> bool {
    r matches Reply::Render(tt, Context::Messages(ms)) && tt == t && ms@.len() == 1 && ms@[0]@ == m
}

/// The reply redirects to `path`.
pub open spec fn redirects_to(r: Reply, path: Seq<char>) -> bool {
    r matches Reply::Redirect(p) && p@ == path
}

/// The fetch failed because the back end answered with `code`.
pub open spec fn failed_with_code(e: GetAndProcessError, code: u16) -> bool {
    e matches GetAndProcessError::DecipherResponseError(DecipherResponseError::UnexpectedResponseCode(sc)) && sc@ == code
}

/// How a failed fetch is reported: an unexpected status by its number,
/// anything else by its text, on the page for bad replies of the back end.
pub open spec fn reports_failure(r: Reply, e: GetAndProcessError) -> bool {
    match e {
        GetAndProcessError::DecipherResponseError(DecipherResponseError::UnexpectedResponseCode(sc)) =>
            renders_text(r, Template::BadBackendResponse, decimal_nat(sc@ as nat)),
        _ => renders_text(r, Template::BadBackendResponse, e.message_spec()),
    }
}

/// The page for a bad reply of the back end, showing `text`.
pub fn bad_backend_response(text: String) -> (r: Reply)
    ensures
        r == Reply::Render(Template::BadBackendResponse, Context::Text(text)),
{
    Reply::Render(Template::BadBackendResponse, Context::Text(text))
}

/// The page `t` with the one message `m`.
pub fn message_page(t: Template, m: &str) -> (r: Reply)
    ensures
        renders_message(r, t, m@),
{
    Reply::Render(t, Context::Messages(vec![String::from_str(m)]))
}

/// A redirect to `path`.
pub fn redirect(path: &str) -> (r: Reply)
    ensures
        redirects_to(r, path@),
{
    Reply::Redirect(String::from_str(path))
}

/// Reports a failed fetch: an unexpected status by its number, anything
/// else by its text.
pub fn report_failure(e: GetAndProcessError) -> (r: Reply)
    ensures
        reports_failure(r, e),
{
    match e {
        GetAndProcessError::DecipherResponseError(DecipherResponseError::UnexpectedResponseCode(sc)) =>
            bad_backend_response(sc.as_str()),
        _ => bad_backend_response(e.message()),
    }
}

/// The status number of a fetch that failed with an unexpected status.
pub fn failure_code(e: &GetAndProcessError) -> (r: Option<u16>)
    ensures
        r matches Some(c) ==> failed_with_code(*e, c),
        r is None ==> !(e is DecipherResponseError),
{
    match e {
        GetAndProcessError::DecipherResponseError(DecipherResponseError::UnexpectedResponseCode(sc)) =>
            Some(sc.as_u16()),
        _ => None,
    }
}

} // verus!
