//! The public page of a post.

use vstd::prelude::*;
use vstd::string::*;
use crate::errors::GetAndProcessError;
use crate::models::PostAndTag;
use crate::pages::{
    Context, Reply, Template, bad_backend_response, failure_code, renders_text, report_failure,
    reports_failure, failed_with_code,
};
use crate::text::{decimal_int, decimal_i32};

verus! {

pub open spec fn empty_vec_message() -> Seq<char> {
    "The backend unexpectedly returned an empty set of posts"@
}

/// Why an existing post could not be had.
#[derive(Clone, Debug, PartialEq)]
pub enum GetExisitingPostError {
    GetAndProcessError(GetAndProcessError),
    EmptyVec,
}

impl GetExisitingPostError {
    pub open spec fn message_spec(&self) -> Seq<char> {
        match self {
            GetExisitingPostError::GetAndProcessError(e) => e.message_spec(),
            GetExisitingPostError::EmptyVec => empty_vec_message(),
        }
    }

    /// The text the error displays.
    pub fn message(&self) -> (r: String)
        ensures
            r@ == self.message_spec(),
    {
        match self {
            GetExisitingPostError::GetAndProcessError(e) => e.message(),
            GetExisitingPostError::EmptyVec => String::from_str(
                "The backend unexpectedly returned an empty set of posts",
            ),
        }
    }
}

/// The path of a post on the API: `posts/<id>`.
pub fn post_path(id: i32) -> (r: String)
    ensures
        r@ == "posts/"@ + decimal_int(id as int),
{
    String::from_str("posts/").concat(decimal_i32(id).as_str())
}

/// The post that the back end gave for an id: the first of the list it
/// answers with, or `EmptyVec` where the list is empty.
pub fn get_exisiting_post(fetched: Result<Vec<PostAndTag>, GetAndProcessError>) -> (r: Result<PostAndTag, GetExisitingPostError>)
    ensures
        match fetched {
            Err(e) => r == Err::<PostAndTag, GetExisitingPostError>(GetExisitingPostError::GetAndProcessError(e)),
            Ok(pats) => if pats@.len() == 0 {
                r == Err::<PostAndTag, GetExisitingPostError>(GetExisitingPostError::EmptyVec)
            } else {
                r == Ok::<PostAndTag, GetExisitingPostError>(pats@[0])
            },
        },
{
    match fetched {
        Err(e) => Err(GetExisitingPostError::GetAndProcessError(e)),
        Ok(pats) => {
            if pats.len() == 0 {
                Err(GetExisitingPostError::EmptyVec)
            } else {
                let mut pats = pats;
                Ok(pats.remove(0))
            }
        },
    }
}

/// How a post that could not be had is reported: a post that is not found
/// by the not-found page, an empty answer or another failure on the page
/// for bad replies.
pub open spec fn reports_missing_post(r: Reply, e: GetExisitingPostError) -> bool {
    match e {
        GetExisitingPostError::EmptyVec => renders_text(r, Template::BadBackendResponse, empty_vec_message()),
        GetExisitingPostError::GetAndProcessError(g) => if failed_with_code(g, 404) {
            r == Reply::Render(Template::NotFound, Context::Empty)
        } else {
            reports_failure(r, g)
        },
    }
}

/// Reports a post that could not be had.
pub fn report_missing_post(e: GetExisitingPostError) -> (r: Reply)
    ensures
        reports_missing_post(r, e),
{
    match e {
        GetExisitingPostError::EmptyVec => bad_backend_response(
            String::from_str("The backend unexpectedly returned an empty set of posts"),
        ),
        GetExisitingPostError::GetAndProcessError(g) => {
            if failure_code(&g) == Some(404u16) {
                Reply::Render(Template::NotFound, Context::Empty)
            } else {
                report_failure(g)
            }
        },
    }
}

/// The page of an existing post.
pub fn existing_post(found: Result<PostAndTag, GetExisitingPostError>) -> (r: Reply)
    ensures
        match found {
            Ok(_) => r == Reply::Render(Template::Post, Context::Empty),
            Err(e) => reports_missing_post(r, e),
        },
{
    match found {
        Ok(_) => Reply::Render(Template::Post, Context::Empty),
        Err(e) => report_missing_post(e),
    }
}

/// The page to write a new post.
pub fn new_post() -> (r: Reply)
    ensures
        r == Reply::Render(Template::Post, Context::Empty),
{
    Reply::Render(Template::Post, Context::Empty)
}

} // verus!
