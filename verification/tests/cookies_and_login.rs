use blog_frontend::common::cookie_header;
use blog_frontend::session::{find_jwt, process_login, LoginOutcome, SessionCookie};
use blog_frontend::status::StatusCode;

fn cookies(list: &[(&str, &str)]) -> Vec<(String, String)> {
    list.iter().map(|(n, v)| (n.to_string(), v.to_string())).collect()
}

#[test]
fn cookie_header_lists_each_cookie() {
    assert_eq!(cookie_header(&cookies(&[])), "");
    assert_eq!(cookie_header(&cookies(&[("jwt", "abc")])), " jwt=abc;");
    assert_eq!(cookie_header(&cookies(&[("a", "1"), ("b", "2")])), " a=1; b=2;");
}

#[test]
fn cookie_header_of_joined_lists_is_joined() {
    let a = cookies(&[("a", "1")]);
    let b = cookies(&[("b", "2"), ("c", "3")]);
    let mut ab = a.clone();
    ab.extend(b.clone());
    assert_eq!(cookie_header(&ab), cookie_header(&a) + &cookie_header(&b));
}

#[test]
fn the_last_jwt_cookie_wins() {
    assert_eq!(find_jwt(&cookies(&[])), "");
    assert_eq!(find_jwt(&cookies(&[("session", "x")])), "");
    assert_eq!(find_jwt(&cookies(&[("jwt", "one"), ("x", "y"), ("jwt", "two")])), "two");
    assert_eq!(find_jwt(&cookies(&[("jwt", "one"), ("other", "y")])), "one");
}

#[test]
fn signing_in_sets_the_session_cookie() {
    let ok = StatusCode::from_u16(200).unwrap();
    assert_eq!(
        process_login(Ok((ok, cookies(&[("jwt", "token")])))),
        LoginOutcome::SignedIn {
            cookie: SessionCookie {
                name: "jwt".to_string(),
                value: "token".to_string(),
                http_only: true,
                path: "/".to_string(),
                same_site_strict: true,
            },
            redirect: "/user".to_string(),
        }
    );
}

#[test]
fn a_sign_in_without_jwt_is_refused() {
    let ok = StatusCode::from_u16(200).unwrap();
    assert_eq!(
        process_login(Ok((ok, cookies(&[("other", "x")])))),
        LoginOutcome::RelayText("Expected backend to return a jwt. It did not.".to_string())
    );
    assert_eq!(
        process_login(Ok((ok, cookies(&[("jwt", "")])))),
        LoginOutcome::RelayText("Expected backend to return a jwt. It did not.".to_string())
    );
}

#[test]
fn other_statuses_relay_the_body() {
    let unauthorized = StatusCode::from_u16(401).unwrap();
    assert_eq!(process_login(Ok((unauthorized, cookies(&[("jwt", "t")])))), LoginOutcome::RelayBody);
    let created = StatusCode::from_u16(201).unwrap();
    assert_eq!(process_login(Ok((created, cookies(&[])))), LoginOutcome::RelayBody);
    assert_eq!(process_login(Err("refused".to_string())), LoginOutcome::RelayText("refused".to_string()));
}
