//! How outgoing requests are credentialed.

use vstd::prelude::*;

use base64::Engine;

verus! {

/// The standard, padded base64 text of the UTF-8 bytes of `text`.
pub uninterp spec fn base64_of(text: Seq<char>) -> Seq<char>;

/// Relies on base64's standard engine (`Engine::encode` of
/// `general_purpose::STANDARD`): the padded base64 text of the bytes of
/// `text`, the encoding that HTTP Basic authentication uses.
#[verifier::external_body]
fn encode_base64(text: &str) -> (r: String)
    ensures
        r@ == base64_of(text@),
{
    base64::engine::general_purpose::STANDARD.encode(text)
}

/// A user name and a password, for HTTP Basic authentication.
#[derive(Debug, PartialEq)]
pub struct BasicAuthentication {
    username: String,
    password: String,
}

impl View for BasicAuthentication {
    /// The user name and the password.
    type V = (Seq<char>, Seq<char>);

    closed spec fn view(&self) -> (Seq<char>, Seq<char>) {
        (self.username@, self.password@)
    }
}

impl Clone for BasicAuthentication {
    fn clone(&self) -> (r: Self)
        ensures
            r == *self,
    {
        BasicAuthentication { username: self.username.clone(), password: self.password.clone() }
    }
}

impl BasicAuthentication {
    /// Credentials with the given user name and password.
    pub fn new(username: &str, password: &str) -> (r: Self)
        ensures
            r@ == (username@, password@),
    {
        BasicAuthentication { username: username.to_owned(), password: password.to_owned() }
    }
}

/// How a client credentials its requests: with HTTP Basic credentials, with a
/// bearer token, or not at all.
#[derive(Debug, PartialEq)]
pub enum Authentication {
    Basic(BasicAuthentication),
    Bearer(String),
    Anonymous,
}

impl Clone for Authentication {
    fn clone(&self) -> (r: Self)
        ensures
            r == *self,
    {
        match self {
            Authentication::Basic(basic) => Authentication::Basic(basic.clone()),
            Authentication::Bearer(token) => Authentication::Bearer(token.clone()),
            Authentication::Anonymous => Authentication::Anonymous,
        }
    }
}

impl Default for Authentication {
    fn default() -> (r: Self)
        ensures
            r == Authentication::Anonymous,
    {
        Authentication::Anonymous
    }
}

/// The text of an optional string.
pub open spec fn opt_text(s: Option<String>) -> Option<Seq<char>> {
    match s {
        Some(t) => Some(t@),
        None => None,
    }
}

impl Authentication {
    /// HTTP Basic authentication with the given user name and password.
    pub fn new_basic(username: &str, password: &str) -> (r: Self)
        ensures
            r is Basic,
            r->Basic_0@ == (username@, password@),
    {
        Authentication::Basic(BasicAuthentication::new(username, password))
    }

    /// Bearer authentication with the given token.
    pub fn new_bearer(token: &str) -> (r: Self)
        ensures
            r is Bearer,
            r->Bearer_0@ == token@,
    {
        Authentication::Bearer(token.to_owned())
    }

    /// The value of the `Authorization` header that this scheme puts on each
    /// request: `Basic ` and the base64 text of `user:password`, or `Bearer `
    /// and the token; none without authentication.
    pub open spec fn header_view(&self) -> Option<Seq<char>> {
        match self {
            Authentication::Basic(basic) => Some(
                "Basic "@ + base64_of(basic@.0 + ":"@ + basic@.1),
            ),
            Authentication::Bearer(token) => Some("Bearer "@ + token@),
            Authentication::Anonymous => None,
        }
    }

    /// The value of the `Authorization` header; see `header_view`.
    pub fn authorization(&self) -> (r: Option<String>)
        ensures
            opt_text(r) == self.header_view(),
    {
        match self {
            Authentication::Basic(basic) => {
                let credentials = basic.username.clone().concat(":").concat(basic.password.as_str());
                let header = "Basic ".to_owned().concat(encode_base64(credentials.as_str()).as_str());
                Some(header)
            },
            Authentication::Bearer(token) => Some("Bearer ".to_owned().concat(token.as_str())),
            Authentication::Anonymous => None,
        }
    }
}

} // verus!
