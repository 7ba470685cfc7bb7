use blog_frontend::status::StatusCode;
use blog_frontend::text::{decimal_i32, decimal_u16};

#[test]
fn decimal_of_small_and_large_numbers() {
    assert_eq!(decimal_i32(0), "0");
    assert_eq!(decimal_i32(7), "7");
    assert_eq!(decimal_i32(42), "42");
    assert_eq!(decimal_i32(-7), "-7");
    assert_eq!(decimal_i32(1000), "1000");
    assert_eq!(decimal_i32(i32::MAX), "2147483647");
    assert_eq!(decimal_i32(i32::MIN), "-2147483648");
    assert_eq!(decimal_u16(0), "0");
    assert_eq!(decimal_u16(65535), "65535");
}

#[test]
fn status_codes_are_100_to_999() {
    assert!(StatusCode::from_u16(99).is_none());
    assert!(StatusCode::from_u16(1000).is_none());
    assert_eq!(StatusCode::from_u16(100).unwrap().as_u16(), 100);
    assert_eq!(StatusCode::from_u16(999).unwrap().as_u16(), 999);
}

#[test]
fn success_is_the_2xx_range() {
    for (code, ok) in [(199u16, false), (200, true), (204, true), (299, true), (300, false), (404, false)] {
        assert_eq!(StatusCode::from_u16(code).unwrap().is_success(), ok);
    }
}

#[test]
fn status_texts() {
    let s = StatusCode::from_u16(404).unwrap();
    assert_eq!(s.as_str(), "404");
    assert_eq!(s.to_text(), "404 Not Found");
    assert_eq!(StatusCode::from_u16(401).unwrap().to_text(), "401 Unauthorized");
    assert_eq!(StatusCode::from_u16(599).unwrap().to_text(), "599 <unknown status code>");
    assert_eq!(StatusCode::from_u16(200).unwrap().to_text(), "200 OK");
}
