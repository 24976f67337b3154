//! The JSON bodies of the login exchange that yields a session token.

use vstd::prelude::*;

use crate::codec::str_field;
use crate::json::{
    as_string, get_field, json_str, parse_json, parsed_json, string_value, write_json,
    written_json, JsonValue,
};

verus! {

/// The credentials sent to log in.
#[derive(Debug)]
pub struct LoginBody {
    pub email: String,
    pub password: String,
}

/// The server's answer to a login.
#[derive(Debug)]
pub struct LoginResponse {
    pub member_id: String,
    pub token: String,
}

/// How a login body is laid out: the members `email`, `password`, in order.
pub open spec fn login_layout(v: JsonValue, email: Seq<char>, password: Seq<char>) -> bool {
    match v {
        JsonValue::Object(fs) => {
            &&& fs@.len() == 2
            &&& fs@[0].0@ == "email"@
            &&& json_str(fs@[0].1) == Some(email)
            &&& fs@[1].0@ == "password"@
            &&& json_str(fs@[1].1) == Some(password)
        },
        _ => false,
    }
}

/// The member id and token that a login answer holds.
pub open spec fn login_response_of(text: Seq<char>) -> Option<(Seq<char>, Seq<char>)> {
    match parsed_json(text) {
        Some(JsonValue::Object(fs)) => match (str_field(fs@, "member_id"@), str_field(fs@, "token"@)) {
            (Some(m), Some(t)) => Some((m, t)),
            _ => None,
        },
        _ => None,
    }
}

impl LoginBody {
    /// Credentials for a login.
    pub fn new(email: String, password: String) -> (r: LoginBody)
        ensures
            r.email@ == email@,
            r.password@ == password@,
    {
        LoginBody { email: email, password: password }
    }

    /// The body as a JSON value.
    pub fn to_json(&self) -> (r: JsonValue)
        ensures
            login_layout(r, self.email@, self.password@),
    {
        let fs = vec![
            ("email".to_owned(), string_value(&self.email)),
            ("password".to_owned(), string_value(&self.password)),
        ];
        JsonValue::Object(fs)
    }

    /// The body as JSON text, ready to post.
    pub fn to_text(&self) -> (r: String)
        ensures
            exists|v: JsonValue| login_layout(v, self.email@, self.password@) && r@ == written_json(v),
    {
        let v = self.to_json();
        write_json(&v)
    }
}

/// Reads the server's answer to a login.
pub fn decode_login_response(text: &str) -> (r: Option<LoginResponse>)
    ensures
        match r {
            Some(l) => login_response_of(text@) == Some((l.member_id@, l.token@)),
            None => login_response_of(text@) is None,
        },
{
    match parse_json(text) {
        Some(JsonValue::Object(fs)) => {
            let member_id = match get_field(&fs, "member_id") {
                Some(v) => as_string(v),
                None => None,
            };
            let token = match get_field(&fs, "token") {
                Some(v) => as_string(v),
                None => None,
            };
            match (member_id, token) {
                (Some(m), Some(t)) => Some(LoginResponse { member_id: m, token: t }),
                _ => None,
            }
        },
        _ => None,
    }
}

} // verus!
