//! Signing in: the session cookie that the back end hands out.

use vstd::prelude::*;
use vstd::string::*;
use crate::status::StatusCode;

verus! {

pub struct LoginCredentials {
    pub email: String,
    pub password: String,
}

/// The value of the last cookie named `jwt`, or nothing where there is
/// none.
pub open spec fn jwt_spec(cookies: Seq<(String, String)>) -> Seq<char>
    decreases cookies.len(),
{
    if cookies.len() == 0 {
        Seq::empty()
    } else if cookies.last().0@ == "jwt"@ {
        cookies.last().1@
    } else {
        jwt_spec(cookies.drop_last())
    }
}

/// A cookie named `jwt` at the end of the cookies decides the session,
/// whatever came before it.
pub proof fn last_jwt_cookie_wins(cookies: Seq<(String, String)>, name: String, value: String)
    requires
        name@ == "jwt"@,
    ensures
        jwt_spec(cookies.push((name, value))) == value@,
{
    assert(cookies.push((name, value)).last() == (name, value));
}

/// Cookies of other names do not change the session that the cookies
/// before them decide.
pub proof fn other_cookies_keep_jwt(cookies: Seq<(String, String)>, name: String, value: String)
    requires
        name@ != "jwt"@,
    ensures
        jwt_spec(cookies.push((name, value))) == jwt_spec(cookies),
{
    assert(cookies.push((name, value)).last() == (name, value));
    assert(cookies.push((name, value)).drop_last() =~= cookies);
}

/// The value of the last cookie named `jwt` among the cookies of a reply
/// (by name and value), or the empty text where there is none.
pub fn find_jwt(cookies: &Vec<(String, String)>) -> (r: String)
    ensures
        r@ == jwt_spec(cookies@),
{
    let name = String::from_str("jwt");
    let mut jwt = String::new();
    let mut i: usize = 0;
    while i < cookies.len()
        invariant
            i <= cookies.len(),
            name@ == "jwt"@,
            jwt@ == jwt_spec(cookies@.take(i as int)),
        decreases cookies.len() - i,
    {
        proof {
            assert(cookies@.take(i + 1).drop_last() =~= cookies@.take(i as int));
            assert(cookies@.take(i + 1).last() == cookies@[i as int]);
        }
        if cookies[i].0 == name {
            jwt = cookies[i].1.clone();
        }
        i = i + 1;
    }
    proof {
        assert(cookies@.take(cookies@.len() as int) =~= cookies@);
    }
    jwt
}

/// The cookie that carries the session of a signed-in user.
#[derive(Clone, Debug, PartialEq)]
pub struct SessionCookie {
    pub name: String,
    pub value: String,
    pub http_only: bool,
    pub path: String,
    pub same_site_strict: bool,
}

/// What signing in comes to.
#[derive(Clone, Debug, PartialEq)]
pub enum LoginOutcome {
    /// Add the cookie, then redirect to `redirect`.
    SignedIn { cookie: SessionCookie, redirect: String },
    /// Answer with the body of the reply of the back end, read as JSON.
    RelayBody,
    /// Answer with this text, read as JSON.
    RelayText(String),
}

pub open spec fn missing_jwt_message() -> Seq<char> {
    "Expected backend to return a jwt. It did not."@
}

/// The outcome of signing in, given the reply of the back end (its status
/// and its cookies by name and value) or the text of the failure: a 200
/// that carries a `jwt` cookie signs the user in with an HTTP-only cookie of
/// the same value on `/`, strict to the same site, and sends to `/user`; a
/// 200 without it, or any failure, answers with a text; any other status
/// answers with the body of the reply.
pub fn process_login(reply: Result<(StatusCode, Vec<(String, String)>), String>) -> (r: LoginOutcome)
    ensures
        match reply {
            Err(t) => r == LoginOutcome::RelayText(t),
            Ok((status, cookies)) => if status@ == 200 {
                if jwt_spec(cookies@).len() == 0 {
                    r matches LoginOutcome::RelayText(t) && t@ == missing_jwt_message()
                } else {
                    r matches LoginOutcome::SignedIn { cookie, redirect }
                        && cookie.name@ == "jwt"@
                        && cookie.value@ == jwt_spec(cookies@)
                        && cookie.http_only
                        && cookie.path@ == "/"@
                        && cookie.same_site_strict
                        && redirect@ == "/user"@
                }
            } else {
                r == LoginOutcome::RelayBody
            },
        },
{
    match reply {
        Err(t) => LoginOutcome::RelayText(t),
        Ok((status, cookies)) => {
            if status.as_u16() == 200 {
                let jwt = find_jwt(&cookies);
                if jwt.as_str().is_empty() {
                    LoginOutcome::RelayText(String::from_str("Expected backend to return a jwt. It did not."))
                } else {
                    LoginOutcome::SignedIn {
                        cookie: SessionCookie {
                            name: String::from_str("jwt"),
                            value: jwt,
                            http_only: true,
                            path: String::from_str("/"),
                            same_site_strict: true,
                        },
                        redirect: String::from_str("/user"),
                    }
                }
            } else {
                LoginOutcome::RelayBody
            }
        },
    }
}

} // verus!
