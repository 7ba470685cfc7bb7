//! The pages of a signed-in user: the profile, the users, the posts to
//! write and edit, and the change of password.

use vstd::prelude::*;
use vstd::string::*;
use crate::errors::{GetAndProcessError, PatchValueError, PostValueError};
use crate::models::{
    Post, PostAndTag, PostForm, Response, Tag, UserWithoutPHC, PasswordUpdate, chrono_date_parse,
    chrono_date_time_parse, created_format, date_parts, date_time_parts, last_updated_format,
    missing_errors_text,
};
use crate::pages::{
    Context, Reply, Template, bad_backend_response, failed_with_code, failure_code, message_page,
    redirect, redirects_to, renders_message, renders_text, report_failure, reports_failure,
};
use crate::post::{GetExisitingPostError, report_missing_post, reports_missing_post};
use crate::text::{decimal_int, decimal_i32};

verus! {

pub open spec fn view_profile_login_message() -> Seq<char> {
    "You must be logged in to view a user profile."@
}

pub open spec fn edit_profile_login_message() -> Seq<char> {
    "You must be logged in to edit a user profile."@
}

pub open spec fn no_privilege_message() -> Seq<char> {
    "You lack necessary privileges to access that page."@
}

pub open spec fn no_update_privilege_message() -> Seq<char> {
    "You lack necessary privileges to update that user profile."@
}

pub open spec fn wrong_password_message() -> Seq<char> {
    "The current account password you entered was incorrect.<br>Password <b>not</b> updated."@
}

/// The path of a user on the API: `users/<id>`.
pub fn user_path(id: i32) -> (r: String)
    ensures
        r@ == "users/"@ + decimal_int(id as int),
{
    String::from_str("users/").concat(decimal_i32(id).as_str())
}

/// The profile of the signed-in user; a back end that does not know who is
/// signed in (401) sends to the login page.
pub fn get_user(fetched: Result<UserWithoutPHC, GetAndProcessError>) -> (r: Reply)
    ensures
        match fetched {
            Ok(u) => r == Reply::Render(Template::User, Context::Profile(u)),
            Err(e) => if failed_with_code(e, 401) {
                r == Reply::Render(Template::Login, Context::Empty)
            } else {
                reports_failure(r, e)
            },
        },
{
    match fetched {
        Ok(u) => Reply::Render(Template::User, Context::Profile(u)),
        Err(e) => {
            if failure_code(&e) == Some(401u16) {
                Reply::Render(Template::Login, Context::Empty)
            } else {
                report_failure(e)
            }
        },
    }
}

/// The profile of a user by id, seen by an administrator; 401 sends to the
/// login page and 403 to the post page, each with a message.
pub fn get_user_by_id(fetched: Result<UserWithoutPHC, GetAndProcessError>) -> (r: Reply)
    ensures
        match fetched {
            Ok(u) => r == Reply::Render(Template::User, Context::AdminProfile(u)),
            Err(e) => if failed_with_code(e, 401) {
                renders_message(r, Template::Login, view_profile_login_message())
            } else if failed_with_code(e, 403) {
                renders_message(r, Template::Post, no_privilege_message())
            } else {
                reports_failure(r, e)
            },
        },
{
    match fetched {
        Ok(u) => Reply::Render(Template::User, Context::AdminProfile(u)),
        Err(e) => {
            let code = failure_code(&e);
            if code == Some(401u16) {
                message_page(Template::Login, "You must be logged in to view a user profile.")
            } else if code == Some(403u16) {
                message_page(Template::Post, "You lack necessary privileges to access that page.")
            } else {
                report_failure(e)
            }
        },
    }
}

/// The list of all users; 401 sends to the login page and 404 to the post
/// page, each with a message.
pub fn list_all_users(fetched: Result<Vec<UserWithoutPHC>, GetAndProcessError>) -> (r: Reply)
    ensures
        match fetched {
            Ok(us) => r == Reply::Render(Template::ListOfUsers, Context::Users(us)),
            Err(e) => if failed_with_code(e, 401) {
                renders_message(r, Template::Login, view_profile_login_message())
            } else if failed_with_code(e, 404) {
                renders_message(r, Template::Post, no_privilege_message())
            } else {
                reports_failure(r, e)
            },
        },
{
    match fetched {
        Ok(us) => Reply::Render(Template::ListOfUsers, Context::Users(us)),
        Err(e) => {
            let code = failure_code(&e);
            if code == Some(401u16) {
                message_page(Template::Login, "You must be logged in to view a user profile.")
            } else if code == Some(404u16) {
                message_page(Template::Post, "You lack necessary privileges to access that page.")
            } else {
                report_failure(e)
            }
        },
    }
}

/// The tags a post can be given, fetched before the post form is shown; a
/// failure ends the handler with its text.
pub fn available_tags(fetched: Result<Vec<Tag>, GetAndProcessError>) -> (r: Result<Vec<Tag>, Reply>)
    ensures
        match fetched {
            Ok(tags) => r == Ok::<Vec<Tag>, Reply>(tags),
            Err(e) => r matches Err(page) && renders_text(page, Template::BadBackendResponse, e.message_spec()),
        },
{
    match fetched {
        Ok(tags) => Ok(tags),
        Err(e) => Err(bad_backend_response(e.message())),
    }
}

/// The form to edit an existing post, with the tags it can be given.
pub fn existing_post(found: Result<PostAndTag, GetExisitingPostError>, tags: Vec<Tag>) -> (r: Reply)
    ensures
        match found {
            Ok(pat) => r == Reply::Render(Template::EditPost, Context::EditPost(pat, tags)),
            Err(e) => reports_missing_post(r, e),
        },
{
    match found {
        Ok(pat) => Reply::Render(Template::EditPost, Context::EditPost(pat, tags)),
        Err(e) => report_missing_post(e),
    }
}

/// The form to write a new post, with the tags it can be given.
pub fn new_post(tags: Result<Vec<Tag>, GetAndProcessError>) -> (r: Reply)
    ensures
        match tags {
            Ok(ts) => r == Reply::Render(Template::NewPost, Context::NewPost(ts)),
            Err(e) => renders_text(r, Template::BadBackendResponse, e.message_spec()),
        },
{
    match available_tags(tags) {
        Ok(ts) => Reply::Render(Template::NewPost, Context::NewPost(ts)),
        Err(page) => page,
    }
}

/// What a submitted post form asks of the back end: to update the post it
/// names, or to create a post.
#[derive(Clone, Debug, PartialEq)]
pub enum PostSubmission {
    /// PATCH `post` to `path`.
    Update { path: String, post: Post },
    /// POST `post` to `path`.
    Create { path: String, post: Post },
}

/// `post` is what the form describes (see `Post::from_form`).
pub open spec fn post_of_form(post: Post, form: PostForm) -> bool {
    &&& post.id == form.id
    &&& post.title == form.title
    &&& post.author == form.author
    &&& post.content == form.content
    &&& date_time_parts(post.created) == match form.created {
        Some(d) => chrono_date_time_parse(d@, created_format()),
        None => None,
    }
    &&& date_parts(post.last_updated) == match form.last_updated {
        Some(d) => chrono_date_parse(d@, last_updated_format()),
        None => None,
    }
}

/// The post that a form describes carries the form's id, title, author
/// and content unchanged, whether or not the form names a post.
pub proof fn post_keeps_form_fields(post: Post, form: PostForm)
    requires
        post_of_form(post, form),
    ensures
        post.id == form.id,
        post.title == form.title,
        post.author == form.author,
        post.content == form.content,
{
}

/// A post form with an id updates that post at `posts/<id>`; one without
/// creates a post at `posts`.
pub fn process_post(form: PostForm) -> (r: PostSubmission)
    ensures
        match form.id {
            Some(id) => r matches PostSubmission::Update { path, post }
                && path@ == "posts/"@ + decimal_int(id as int) && post_of_form(post, form),
            None => r matches PostSubmission::Create { path, post }
                && path@ == "posts"@ && post_of_form(post, form),
        },
{
    let id = form.id;
    let post = Post::from_form(form);
    match id {
        Some(i) => PostSubmission::Update { path: crate::post::post_path(i), post },
        None => PostSubmission::Create { path: String::from_str("posts"), post },
    }
}

/// The answer to an update of a post: the user page once the back end took
/// it, otherwise its reply or the failure.
pub fn process_post_updated(outcome: Result<Option<Response>, PatchValueError>) -> (r: Reply)
    ensures
        match outcome {
            Ok(None) => redirects_to(r, "/user"@),
            Ok(Some(resp)) => r == Reply::Render(Template::BadBackendResponse, Context::BackendResponse(Some(resp))),
            Err(e) => renders_text(r, Template::BadBackendResponse, e.message_spec()),
        },
{
    match outcome {
        Ok(None) => redirect("/user"),
        Ok(Some(resp)) => Reply::Render(Template::BadBackendResponse, Context::BackendResponse(Some(resp))),
        Err(e) => bad_backend_response(e.message()),
    }
}

/// The answer to the creation of a post: its page once the back end
/// created it (201), at the location the back end gave; otherwise the
/// errors of the reply, or the failure.
pub fn process_post_created(outcome: Result<Response, PostValueError>) -> (r: Reply)
    ensures
        match outcome {
            Ok(resp) => if resp.status_code == Some(201u16) {
                redirects_to(r, "/post/"@ + match resp.location { Some(l) => l@, None => Seq::empty() })
            } else {
                renders_text(r, Template::BadBackendResponse, match resp.errors {
                    Some(t) => t@,
                    None => missing_errors_text(),
                })
            },
            Err(e) => renders_text(r, Template::BadBackendResponse, e.message_spec()),
        },
{
    match outcome {
        Ok(resp) => {
            if resp.status_code == Some(201u16) {
                let location = match resp.location {
                    Some(l) => l,
                    None => String::new(),
                };
                Reply::Redirect(String::from_str("/post/").concat(location.as_str()))
            } else {
                bad_backend_response(Response::error_text(resp.errors))
            }
        },
        Err(e) => bad_backend_response(e.message()),
    }
}

/// The text of the errors of a reply, as the pages show it.
pub open spec fn errors_text(resp: Response) -> Seq<char> {
    match resp.errors {
        Some(t) => t@,
        None => missing_errors_text(),
    }
}

/// The answer to an update of the signed-in user: the user page once the
/// back end took it; 401 sends to the login page and 403 to the post page,
/// each with a message.
pub fn patch_user(outcome: Result<Option<Response>, PatchValueError>) -> (r: Reply)
    ensures
        match outcome {
            Ok(None) => redirects_to(r, "/user"@),
            Ok(Some(resp)) => if resp.status_code == Some(401u16) {
                renders_message(r, Template::Login, edit_profile_login_message())
            } else if resp.status_code == Some(403u16) {
                renders_message(r, Template::Post, no_privilege_message())
            } else {
                renders_text(r, Template::BadBackendResponse, errors_text(resp))
            },
            Err(e) => renders_text(r, Template::BadBackendResponse, e.message_spec()),
        },
{
    match outcome {
        Ok(None) => redirect("/user"),
        Ok(Some(resp)) => {
            if resp.status_code == Some(401u16) {
                message_page(Template::Login, "You must be logged in to edit a user profile.")
            } else if resp.status_code == Some(403u16) {
                message_page(Template::Post, "You lack necessary privileges to access that page.")
            } else {
                bad_backend_response(Response::error_text(resp.errors))
            }
        },
        Err(e) => bad_backend_response(e.message()),
    }
}

/// The answer to an update of a user by an administrator: the user page
/// once the back end took it; 204 in a reply with a body shows the user
/// page, 401 the login page and 403 the user page with a message; any other
/// status shows the server error page with the status.
pub fn patch_user_by_id(outcome: Result<Option<Response>, PatchValueError>) -> (r: Reply)
    ensures
        match outcome {
            Ok(None) => redirects_to(r, "/user"@),
            Ok(Some(resp)) => if resp.status_code == Some(204u16) {
                r == Reply::Render(Template::User, Context::Empty)
            } else if resp.status_code == Some(401u16) {
                renders_message(r, Template::Login, edit_profile_login_message())
            } else if resp.status_code == Some(403u16) {
                renders_message(r, Template::User, no_update_privilege_message())
            } else {
                r == Reply::Render(Template::ServerError, Context::MaybeCode(resp.status_code))
            },
            Err(e) => renders_text(r, Template::BadBackendResponse, e.message_spec()),
        },
{
    match outcome {
        Ok(None) => redirect("/user"),
        Ok(Some(resp)) => {
            if resp.status_code == Some(204u16) {
                Reply::Render(Template::User, Context::Empty)
            } else if resp.status_code == Some(401u16) {
                message_page(Template::Login, "You must be logged in to edit a user profile.")
            } else if resp.status_code == Some(403u16) {
                message_page(Template::User, "You lack necessary privileges to update that user profile.")
            } else {
                Reply::Render(Template::ServerError, Context::MaybeCode(resp.status_code))
            }
        },
        Err(e) => bad_backend_response(e.message()),
    }
}

/// The answer to the deletion of a user: the user page once the back end
/// deleted it (204), otherwise the server error page with the status, or
/// with the text of the failure where no reply came.
pub fn delete_user(outcome: Result<crate::status::StatusCode, String>) -> (r: Reply)
    ensures
        match outcome {
            Ok(s) => if s@ == 204 {
                redirects_to(r, "/user"@)
            } else {
                r == Reply::Render(Template::ServerError, Context::Code(s@))
            },
            Err(t) => r == Reply::Render(Template::ServerError, Context::Text(t)),
        },
{
    match outcome {
        Ok(s) => {
            let code = s.as_u16();
            if code == 204 {
                redirect("/user")
            } else {
                Reply::Render(Template::ServerError, Context::Code(code))
            }
        },
        Err(t) => Reply::Render(Template::ServerError, Context::Text(t)),
    }
}

/// The steps of a change of password.
#[derive(Clone, Debug, PartialEq)]
pub enum PwUpdateStep {
    /// POST the current password, as `password`, to `path`; `new_password`
    /// is set once the back end accepts it.
    ConfirmCurrent { path: String, password: String, new_password: String },
    /// PATCH the new password, as `phc`, to `path`.
    SetNew { path: String, phc: String },
    /// Answer with the reply.
    Done(Reply),
}

/// The first step of a change of password: a form that is not valid, or
/// whose new password is not confirmed, is shown again with its errors;
/// otherwise the current password is checked with the back end at
/// `users/confirm_pw`.
pub fn process_pw_update(form: Option<PasswordUpdate>) -> (r: PwUpdateStep)
    ensures
        match form {
            Some(f) => if f.new_password_confirm@ == f.new_password@ {
                r matches PwUpdateStep::ConfirmCurrent { path, password, new_password }
                    && path@ == "users/confirm_pw"@ && password == f.current_password
                    && new_password == f.new_password
            } else {
                r == PwUpdateStep::Done(Reply::Render(Template::UpdatePw, Context::FormErrors))
            },
            None => r == PwUpdateStep::Done(Reply::Render(Template::UpdatePw, Context::FormErrors)),
        },
{
    match form {
        Some(f) => {
            if f.confirmation_matches() {
                PwUpdateStep::ConfirmCurrent {
                    path: String::from_str("users/confirm_pw"),
                    password: f.current_password,
                    new_password: f.new_password,
                }
            } else {
                PwUpdateStep::Done(Reply::Render(Template::UpdatePw, Context::FormErrors))
            }
        },
        None => PwUpdateStep::Done(Reply::Render(Template::UpdatePw, Context::FormErrors)),
    }
}

/// The step after the back end answered the check of the current password
/// that `ConfirmCurrent` carried with `new_password`: only its acceptance
/// (204) leads to setting that new password, at `users`;
/// 401 shows the form with a message; any other status, or a failure, is
/// reported.
pub fn pw_update_confirmed(new_password: String, outcome: Result<u16, PostValueError>) -> (r: PwUpdateStep)
    ensures
        match outcome {
            Ok(code) => if code == 204 {
                r matches PwUpdateStep::SetNew { path, phc } && path@ == "users"@ && phc == new_password
            } else if code == 401 {
                r matches PwUpdateStep::Done(page) && renders_message(page, Template::UpdatePw, wrong_password_message())
            } else {
                r == PwUpdateStep::Done(Reply::Render(Template::BadBackendResponse, Context::Code(code)))
            },
            Err(e) => r matches PwUpdateStep::Done(page)
                && renders_text(page, Template::BadBackendResponse, e.message_spec()),
        },
{
    match outcome {
        Ok(code) => {
            if code == 204 {
                PwUpdateStep::SetNew { path: String::from_str("users"), phc: new_password }
            } else if code == 401 {
                PwUpdateStep::Done(message_page(
                    Template::UpdatePw,
                    "The current account password you entered was incorrect.<br>Password <b>not</b> updated.",
                ))
            } else {
                PwUpdateStep::Done(Reply::Render(Template::BadBackendResponse, Context::Code(code)))
            }
        },
        Err(e) => PwUpdateStep::Done(bad_backend_response(e.message())),
    }
}

/// The answer once the back end answered the new password: the user page
/// once it took it; 401 shows the form again; otherwise the errors of the
/// reply, or the failure.
pub fn pw_update_set(outcome: Result<Option<Response>, PatchValueError>) -> (r: Reply)
    ensures
        match outcome {
            Ok(None) => redirects_to(r, "/user"@),
            Ok(Some(resp)) => if resp.status_code == Some(401u16) {
                r == Reply::Render(Template::UpdatePw, Context::Empty)
            } else {
                renders_text(r, Template::BadBackendResponse, errors_text(resp))
            },
            Err(e) => renders_text(r, Template::BadBackendResponse, e.message_spec()),
        },
{
    match outcome {
        Ok(None) => redirect("/user"),
        Ok(Some(resp)) => {
            if resp.status_code == Some(401u16) {
                Reply::Render(Template::UpdatePw, Context::Empty)
            } else {
                bad_backend_response(Response::error_text(resp.errors))
            }
        },
        Err(e) => bad_backend_response(e.message()),
    }
}

} // verus!
