//! The pages of the tags.

use vstd::prelude::*;
use vstd::string::*;
use crate::errors::{GetAndProcessError, PostValueError};
use crate::models::{Response, Tag};
use crate::pages::{
    Context, Reply, Template, bad_backend_response, failed_with_code, failure_code, redirect,
    redirects_to, renders_text, report_failure, reports_failure,
};
use crate::user::errors_text;

verus! {

/// The page of all tags; a back end that does not know who is signed in
/// (401) sends to the login page.
pub fn get_tags(fetched: Result<Vec<Tag>, GetAndProcessError>) -> (r: Reply)
    ensures
        match fetched {
            Ok(tags) => r == Reply::Render(Template::Tags, Context::Tags(tags)),
            Err(e) => if failed_with_code(e, 401) {
                r == Reply::Render(Template::Login, Context::Empty)
            } else {
                reports_failure(r, e)
            },
        },
{
    match fetched {
        Ok(tags) => Reply::Render(Template::Tags, Context::Tags(tags)),
        Err(e) => {
            if failure_code(&e) == Some(401u16) {
                Reply::Render(Template::Login, Context::Empty)
            } else {
                report_failure(e)
            }
        },
    }
}

/// The answer to the creation of a tag: back to the tags once the back end
/// created it (201) or already had it (409); otherwise the errors of the
/// reply, or the failure.
pub fn add_tag(outcome: Result<Response, PostValueError>) -> (r: Reply)
    ensures
        match outcome {
            Ok(resp) => if resp.status_code == Some(201u16) || resp.status_code == Some(409u16) {
                redirects_to(r, "/tag"@)
            } else {
                renders_text(r, Template::BadBackendResponse, errors_text(resp))
            },
            Err(e) => renders_text(r, Template::BadBackendResponse, e.message_spec()),
        },
{
    match outcome {
        Ok(resp) => {
            if resp.status_code == Some(201u16) || resp.status_code == Some(409u16) {
                redirect("/tag")
            } else {
                bad_backend_response(Response::error_text(resp.errors))
            }
        },
        Err(e) => bad_backend_response(e.message()),
    }
}

} // verus!
