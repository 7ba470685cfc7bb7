use blog_frontend::errors::{InitializeRequestError, PatchValueError, PostValueError};
use blog_frontend::models::{Date, DateTime, NewTag, NewTagForm, PasswordUpdate, Post, PostForm, Response};
use blog_frontend::pages::{Context, Reply, Template};
use blog_frontend::tera_custom::my_odd;
use blog_frontend::user::{
    process_post, process_post_created, process_post_updated, process_pw_update, pw_update_confirmed,
    pw_update_set, PostSubmission, PwUpdateStep,
};

fn form(id: Option<i32>, created: Option<&str>, last_updated: Option<&str>) -> PostForm {
    PostForm {
        id,
        title: Some("Title".to_string()),
        author: Some("me".to_string()),
        created: created.map(|c| c.to_string()),
        last_updated: last_updated.map(|c| c.to_string()),
        content: Some("text".to_string()),
        tags: Some(vec!["rust".to_string()]),
    }
}

fn response(code: Option<u16>, errors: Option<&str>, location: Option<&str>) -> Response {
    Response {
        status: "Error".to_string(),
        message: None,
        location: location.map(|l| l.to_string()),
        data: None,
        code: None,
        errors: errors.map(|e| e.to_string()),
        status_code: code,
    }
}

fn bad(text: &str) -> Reply {
    Reply::Render(Template::BadBackendResponse, Context::Text(text.to_string()))
}

fn pw(current: &str, new: &str, confirm: &str) -> PasswordUpdate {
    PasswordUpdate {
        current_password: current.to_string(),
        new_password: new.to_string(),
        new_password_confirm: confirm.to_string(),
    }
}

#[test]
fn a_form_with_id_updates_the_post() {
    let expected = Post {
        id: Some(7),
        title: Some("Title".to_string()),
        author: Some("me".to_string()),
        created: Some(DateTime {
            date: Date { year: 2023, month: 1, day: 2 },
            hour: 3,
            minute: 4,
            second: 5,
            nanosecond: 0,
        }),
        last_updated: Some(Date { year: 2023, month: 2, day: 28 }),
        content: Some("text".to_string()),
    };
    assert_eq!(
        process_post(form(Some(7), Some("2023-01-02T03:04:05"), Some("2023-02-28"))),
        PostSubmission::Update { path: "posts/7".to_string(), post: expected }
    );
}

#[test]
fn a_form_without_id_creates_a_post() {
    match process_post(form(None, None, None)) {
        PostSubmission::Create { path, post } => {
            assert_eq!(path, "posts");
            assert_eq!(post.id, None);
            assert_eq!(post.created, None);
            assert_eq!(post.last_updated, None);
        },
        other => panic!("expected a creation, got {:?}", other),
    }
}

#[test]
fn dates_that_do_not_read_are_left_out() {
    let post = Post::from_form(form(Some(1), Some("2023-01-02 03:04:05"), Some("2023-02-30")));
    assert_eq!(post.created, None);
    assert_eq!(post.last_updated, None);
    let leap = Post::from_form(form(Some(1), Some("2016-12-31T23:59:60"), None));
    assert_eq!(leap.created.unwrap().nanosecond, 1_000_000_000);
}

#[test]
fn answers_to_post_submissions() {
    assert_eq!(process_post_updated(Ok(None)), Reply::Redirect("/user".to_string()));
    let r = response(Some(400), None, None);
    assert_eq!(
        process_post_updated(Ok(Some(r.clone()))),
        Reply::Render(Template::BadBackendResponse, Context::BackendResponse(Some(r)))
    );
    assert_eq!(process_post_created(Ok(response(Some(201), None, Some("12")))), Reply::Redirect("/post/12".to_string()));
    assert_eq!(process_post_created(Ok(response(Some(201), None, None))), Reply::Redirect("/post/".to_string()));
    assert_eq!(process_post_created(Ok(response(Some(200), Some("[1]"), Some("12")))), bad("[1]"));
    let init = InitializeRequestError::RequestResponseError("refused".to_string());
    assert_eq!(process_post_created(Err(PostValueError::InitiateRequestError(init.clone()))), bad("refused"));
    assert_eq!(process_post_updated(Err(PatchValueError::InitiateRequestError(init))), bad("refused"));
}

#[test]
fn password_change_checks_the_current_password_first() {
    assert_eq!(
        process_pw_update(Some(pw("old", "new", "new"))),
        PwUpdateStep::ConfirmCurrent {
            path: "users/confirm_pw".to_string(),
            password: "old".to_string(),
            new_password: "new".to_string(),
        }
    );
    assert_eq!(
        process_pw_update(Some(pw("old", "new", "newer"))),
        PwUpdateStep::Done(Reply::Render(Template::UpdatePw, Context::FormErrors))
    );
    assert_eq!(process_pw_update(None), PwUpdateStep::Done(Reply::Render(Template::UpdatePw, Context::FormErrors)));
    assert!(pw("a", "b", "b").confirmation_matches());
    assert!(!pw("a", "b", "c").confirmation_matches());
}

#[test]
fn password_is_set_only_after_acceptance() {
    assert_eq!(
        pw_update_confirmed("new".to_string(), Ok(204)),
        PwUpdateStep::SetNew { path: "users".to_string(), phc: "new".to_string() }
    );
    assert_eq!(
        pw_update_confirmed("new".to_string(), Ok(401)),
        PwUpdateStep::Done(Reply::Render(
            Template::UpdatePw,
            Context::Messages(vec!["The current account password you entered was incorrect.<br>Password <b>not</b> updated.".to_string()])
        ))
    );
    assert_eq!(
        pw_update_confirmed("new".to_string(), Ok(200)),
        PwUpdateStep::Done(Reply::Render(Template::BadBackendResponse, Context::Code(200)))
    );
    let init = InitializeRequestError::RequestResponseError("refused".to_string());
    assert_eq!(
        pw_update_confirmed("new".to_string(), Err(PostValueError::InitiateRequestError(init))),
        PwUpdateStep::Done(bad("refused"))
    );
}

#[test]
fn answers_to_the_new_password() {
    assert_eq!(pw_update_set(Ok(None)), Reply::Redirect("/user".to_string()));
    assert_eq!(pw_update_set(Ok(Some(response(Some(401), None, None)))), Reply::Render(Template::UpdatePw, Context::Empty));
    assert_eq!(pw_update_set(Ok(Some(response(Some(400), None, None)))), bad("\"Expected error not present\""));
}

#[test]
fn odd_tester() {
    assert!(my_odd(Some(Some(3))));
    assert!(my_odd(Some(Some(-3))));
    assert!(!my_odd(Some(Some(4))));
    assert!(!my_odd(Some(Some(0))));
    assert!(my_odd(Some(Some(i64::MIN + 1))));
    assert!(!my_odd(Some(Some(i64::MIN))));
    assert!(!my_odd(Some(None)));
    assert!(!my_odd(None));
}

#[test]
fn new_tag_from_form() {
    assert_eq!(NewTag::from_form(&NewTagForm { name: "rust".to_string() }), NewTag { name: "rust".to_string() });
}
