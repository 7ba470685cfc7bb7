//! The values exchanged with the back end and with the forms of the front
//! end.

use vstd::prelude::*;
use vstd::string::*;
use chrono::{Datelike, Timelike};
use crate::errors::ResponseError;
use crate::status::StatusCode;

verus! {

pub struct User {
    pub email: Option<String>,
    pub pass: Option<String>,
    pub first_name: Option<String>,
    pub last_name: Option<String>,
    pub role: Option<i32>,
    pub active: Option<bool>,
}

#[derive(Clone, Debug, PartialEq)]
pub struct UserWithoutPHC {
    pub id: i32,
    pub email: String,
    pub first_name: Option<String>,
    pub last_name: Option<String>,
    pub created: Option<String>,
    pub role: i32,
    pub active: Option<bool>,
    pub last_access: Option<String>,
}

/// A lower-case hexadecimal digit.
pub open spec fn hex_digit(d: int) -> char {
    if d < 10 {
        ((d + 48) as u32) as char
    } else {
        ((d + 87) as u32) as char
    }
}

/// How serde_json writes one character inside a JSON string: a quote, a
/// backslash and the control characters that have a short escape get it,
/// the other control characters (below U+0020) are written as `\u00XX` in
/// lower-case hexadecimal, and any other character as itself.
pub open spec fn json_char_escape(c: char) -> Seq<char> {
    if c == '"' {
        seq!['\\', '"']
    } else if c == '\\' {
        seq!['\\', '\\']
    } else if c == '\u{8}' {
        seq!['\\', 'b']
    } else if c == '\t' {
        seq!['\\', 't']
    } else if c == '\n' {
        seq!['\\', 'n']
    } else if c == '\u{c}' {
        seq!['\\', 'f']
    } else if c == '\r' {
        seq!['\\', 'r']
    } else if (c as int) < 32 {
        seq!['\\', 'u', '0', '0', hex_digit((c as int) / 16), hex_digit((c as int) % 16)]
    } else {
        seq![c]
    }
}

/// The characters of a string, each written as `json_char_escape` writes it.
pub open spec fn json_escaped(s: Seq<char>) -> Seq<char>
    decreases s.len(),
{
    if s.len() == 0 {
        Seq::empty()
    } else {
        json_escaped(s.drop_last()) + json_char_escape(s.last())
    }
}

/// What `Display` of `serde_json::Value` writes for a JSON string holding
/// `s`: its escaped characters between double quotes.
pub open spec fn json_string_text(s: Seq<char>) -> Seq<char> {
    seq!['"'] + json_escaped(s) + seq!['"']
}

/// A character that serde_json writes as itself.
pub open spec fn json_plain_char(c: char) -> bool {
    c != '"' && c != '\\' && (c as int) >= 32
}

/// A string whose characters all stand for themselves is written unchanged.
pub proof fn json_escaped_plain(s: Seq<char>)
    requires
        forall|i: int| 0 <= i < s.len() ==> json_plain_char(#[trigger] s[i]),
    ensures
        json_escaped(s) == s,
    decreases s.len(),
{
    if s.len() > 0 {
        json_escaped_plain(s.drop_last());
        assert(json_plain_char(s[s.len() - 1]));
        assert(s.drop_last().push(s.last()) =~= s);
    }
}

/// `Display` of `serde_json::Value::String`: the JSON text of a string. Its
/// source (`format_escaped_str` and the `ESCAPE` table of `ser.rs`, with
/// the compact formatter) writes a double quote, each character as
/// `json_char_escape` says, and a double quote; that is what the contract
/// states.
#[verifier::external_body]
fn json_text_of_str(s: &str) -> (r: String)
    ensures
        r@ == json_string_text(s@),
{
    serde_json::Value::String(s.to_string()).to_string()
}

/// The text that stands for the errors of a reply that brought none: the
/// JSON text of "Expected error not present".
pub open spec fn missing_errors_text() -> Seq<char> {
    json_string_text("Expected error not present"@)
}

/// The text for missing errors is the message between double quotes.
pub proof fn missing_errors_text_is_quoted()
    ensures
        missing_errors_text() == "\"Expected error not present\""@,
{
    reveal_strlit("Expected error not present");
    reveal_strlit("\"Expected error not present\"");
    let m = "Expected error not present"@;
    assert forall|i: int| 0 <= i < m.len() implies json_plain_char(#[trigger] m[i]) by {}
    json_escaped_plain(m);
    assert(seq!['"'] + m + seq!['"'] =~= "\"Expected error not present\""@);
}

/// The body of a reply of the back end. `data` and `errors` hold JSON text;
/// `status_code` is the HTTP status of the reply that brought it.
#[derive(Clone, Debug, PartialEq)]
pub struct Response {
    pub status: String,
    pub message: Option<String>,
    pub location: Option<String>,
    pub data: Option<String>,
    pub code: Option<String>,
    pub errors: Option<String>,
    pub status_code: Option<u16>,
}

/// The response that stands for a reply without a body: a success, with
/// nothing but its status code.
pub open spec fn is_bodiless_success(r: Response, code: u16) -> bool {
    &&& r.status@ == "Success"@
    &&& r.message is None
    &&& r.location is None
    &&& r.data is None
    &&& r.code is None
    &&& r.errors is None
    &&& r.status_code == Some(code)
}

impl Response {
    /// Reads a reply of the back end into a `Response`. `body` is the body
    /// text, or the client's error where it could not be read; `parsed` is
    /// the body read as JSON, or the reader's error. An empty body stands
    /// for a success; otherwise the parsed value is taken. Either way the
    /// status code of the reply is recorded.
    pub fn new(status: StatusCode, body: Result<String, String>, parsed: Result<Response, String>) -> (r: Result<Response, ResponseError>)
        ensures
            match body {
                Err(t) => r == Err::<Response, ResponseError>(ResponseError::DeserializeError(t)),
                Ok(b) => if b@.len() == 0 {
                    r matches Ok(resp) && is_bodiless_success(resp, status@)
                } else {
                    match parsed {
                        Err(t) => r == Err::<Response, ResponseError>(ResponseError::SerdeError(t)),
                        Ok(p) => r == Ok::<Response, ResponseError>(Response { status_code: Some(status@), ..p }),
                    }
                },
            },
    {
        let code = status.as_u16();
        match body {
            Err(t) => Err(ResponseError::DeserializeError(t)),
            Ok(b) => {
                if b.as_str().is_empty() {
                    Ok(Response {
                        status: String::from_str("Success"),
                        message: None,
                        location: None,
                        data: None,
                        code: None,
                        errors: None,
                        status_code: Some(code),
                    })
                } else {
                    match parsed {
                        Err(t) => Err(ResponseError::SerdeError(t)),
                        Ok(p) => Ok(Response { status_code: Some(code), ..p }),
                    }
                }
            },
        }
    }

    /// The data of a reply: its JSON text, `NoDataField` where the reply
    /// brought none, or the error that reading the reply gave.
    pub fn get_data(resp: Result<Response, ResponseError>) -> (r: Result<String, ResponseError>)
        ensures
            match resp {
                Err(e) => r == Err::<String, ResponseError>(e),
                Ok(p) => match p.data {
                    Some(d) => r == Ok::<String, ResponseError>(d),
                    None => r == Err::<String, ResponseError>(ResponseError::NoDataField),
                },
            },
    {
        match resp {
            Err(e) => Err(e),
            Ok(p) => match p.data {
                Some(d) => Ok(d),
                None => Err(ResponseError::NoDataField),
            },
        }
    }

    /// The errors of a reply as text, or the JSON text of "Expected error
    /// not present" where it brought none.
    pub fn error_text(errors: Option<String>) -> (r: String)
        ensures
            match errors {
                Some(t) => r == t,
                None => r@ == missing_errors_text() && r@ == "\"Expected error not present\""@,
            },
    {
        proof {
            missing_errors_text_is_quoted();
        }
        match errors {
            Some(t) => t,
            None => json_text_of_str("Expected error not present"),
        }
    }
}

#[derive(Clone, Debug, PartialEq)]
pub struct UserUpdates {
    pub first_name: Option<String>,
    pub last_name: Option<String>,
    pub email: Option<String>,
    pub phc: Option<String>,
    pub active: Option<bool>,
}

/// A request to change the password; the new one is typed twice.
#[derive(Clone, Debug, PartialEq)]
pub struct PasswordUpdate {
    pub current_password: String,
    pub new_password: String,
    pub new_password_confirm: String,
}

impl PasswordUpdate {
    /// Whether the confirmation equals the new password, as the form asks.
    pub fn confirmation_matches(&self) -> (r: bool)
        ensures
            r == (self.new_password_confirm@ == self.new_password@),
    {
        self.new_password_confirm == self.new_password
    }
}

/// A calendar date, as `chrono::NaiveDate` holds it.
#[derive(Clone, Copy, Debug, PartialEq, Eq)]
pub struct Date {
    pub year: i32,
    pub month: u32,
    pub day: u32,
}

/// A date and time of day, as `chrono::NaiveDateTime` holds it; the
/// nanoseconds reach past a second for a leap second.
#[derive(Clone, Copy, Debug, PartialEq, Eq)]
pub struct DateTime {
    pub date: Date,
    pub hour: u32,
    pub minute: u32,
    pub second: u32,
    pub nanosecond: u32,
}

/// What `chrono::NaiveDateTime::parse_from_str(input, format)` gives, by the
/// parts of the date and time: year, month, day, hour, minute, second,
/// nanosecond; `None` where it gives an error.
pub uninterp spec fn chrono_date_time_parse(input: Seq<char>, format: Seq<char>) -> Option<(i32, u32, u32, u32, u32, u32, u32)>;

/// What `chrono::NaiveDate::parse_from_str(input, format)` gives, by year,
/// month and day; `None` where it gives an error.
pub uninterp spec fn chrono_date_parse(input: Seq<char>, format: Seq<char>) -> Option<(i32, u32, u32)>;

pub open spec fn date_time_parts(t: Option<DateTime>) -> Option<(i32, u32, u32, u32, u32, u32, u32)> {
    match t {
        Some(t) => Some((t.date.year, t.date.month, t.date.day, t.hour, t.minute, t.second, t.nanosecond)),
        None => None,
    }
}

pub open spec fn date_parts(d: Option<Date>) -> Option<(i32, u32, u32)> {
    match d {
        Some(d) => Some((d.year, d.month, d.day)),
        None => None,
    }
}

/// `chrono::NaiveDateTime::parse_from_str`, its value taken apart into
/// plain parts; its result is given the name `chrono_date_time_parse`.
#[verifier::external_body]
fn parse_naive_date_time(input: &str, format: &str) -> (r: Option<DateTime>)
    ensures
        date_time_parts(r) == chrono_date_time_parse(input@, format@),
{
    match chrono::NaiveDateTime::parse_from_str(input, format) {
        Ok(t) => Some(DateTime {
            date: Date { year: t.year(), month: t.month(), day: t.day() },
            hour: t.hour(),
            minute: t.minute(),
            second: t.second(),
            nanosecond: t.nanosecond(),
        }),
        Err(_) => None,
    }
}

/// `chrono::NaiveDate::parse_from_str`, its value taken apart into plain
/// parts; its result is given the name `chrono_date_parse`.
#[verifier::external_body]
fn parse_naive_date(input: &str, format: &str) -> (r: Option<Date>)
    ensures
        date_parts(r) == chrono_date_parse(input@, format@),
{
    match chrono::NaiveDate::parse_from_str(input, format) {
        Ok(d) => Some(Date { year: d.year(), month: d.month(), day: d.day() }),
        Err(_) => None,
    }
}

pub open spec fn created_format() -> Seq<char> {
    "%Y-%m-%dT%H:%M:%S"@
}

pub open spec fn last_updated_format() -> Seq<char> {
    "%Y-%m-%d"@
}

#[derive(Clone, Debug, PartialEq)]
pub struct Post {
    pub id: Option<i32>,
    pub title: Option<String>,
    pub author: Option<String>,
    pub created: Option<DateTime>,
    pub last_updated: Option<Date>,
    pub content: Option<String>,
}

#[derive(Clone, Debug, PartialEq)]
pub struct PostForm {
    pub id: Option<i32>,
    pub title: Option<String>,
    pub author: Option<String>,
    pub created: Option<String>,
    pub last_updated: Option<String>,
    pub content: Option<String>,
    pub tags: Option<Vec<String>>,
}

impl Post {
    /// The post that a submitted form describes. The creation time is read
    /// as `%Y-%m-%dT%H:%M:%S` and the date of the last update as `%Y-%m-%d`;
    /// a field that is absent or does not read so is left out. The tags of
    /// the form are not part of the post.
    pub fn from_form(form: PostForm) -> (r: Post)
        ensures
            r.id == form.id,
            r.title == form.title,
            r.author == form.author,
            r.content == form.content,
            date_time_parts(r.created) == match form.created {
                Some(d) => chrono_date_time_parse(d@, created_format()),
                None => None,
            },
            date_parts(r.last_updated) == match form.last_updated {
                Some(d) => chrono_date_parse(d@, last_updated_format()),
                None => None,
            },
    {
        let created = match &form.created {
            Some(d) => parse_naive_date_time(d.as_str(), "%Y-%m-%dT%H:%M:%S"),
            None => None,
        };
        let last_updated = match &form.last_updated {
            Some(d) => parse_naive_date(d.as_str(), "%Y-%m-%d"),
            None => None,
        };
        Post {
            id: form.id,
            title: form.title,
            author: form.author,
            created,
            last_updated,
            content: form.content,
        }
    }
}

#[derive(Clone, Debug, PartialEq)]
pub struct NewTagForm {
    pub name: String,
}

#[derive(Clone, Debug, PartialEq)]
pub struct NewTag {
    pub name: String,
}

impl NewTag {
    /// The tag that the form asks to create.
    pub fn from_form(form: &NewTagForm) -> (r: NewTag)
        ensures
            r.name@ == form.name@,
    {
        NewTag { name: form.name.clone() }
    }
}

#[derive(Clone, Debug, PartialEq)]
pub struct Tag {
    pub id: i32,
    pub name: String,
}

#[derive(Clone, Debug, PartialEq)]
pub struct PostAndTag {
    pub post: Post,
    pub tags: Vec<Tag>,
}

} // verus!
