//! The client: it plans each request, with the client's authentication and
//! a JSON body, and reads each response. Sending is left to the caller, who
//! holds the transport handle that the client was built with.

use vstd::prelude::*;

use crate::auth::{base64_of, Authentication};
use crate::codec::{
    decode_list, decode_list_view, encode_view, lemma_absent_omitted, opt_view, views, JsonRecord,
};
use crate::error::Error;
use crate::json::{has_key, Json, JsonV};
use crate::transport::build_transport;

verus! {

/// The user agent of a client made by `ApiClient::try_new` without one.
pub const DEFAULT_USER_AGENT: &'static str = "Rest json api client";

/// The user agent of a client made by `ApiClientBuilder::build` without one:
/// the builder's package name and version, here version 0.1.0.
pub const BUILDER_USER_AGENT: &'static str = "rest-json-client 0.1.0";

/// An HTTP method.
#[derive(Debug, Clone, Copy, PartialEq, Eq)]
pub enum Method {
    Get,
    Post,
    Put,
    Delete,
}

/// A request, ready to be sent: method, absolute URI, headers in order, and
/// an optional JSON body.
#[derive(Debug, PartialEq)]
pub struct Request {
    pub method: Method,
    pub uri: String,
    pub headers: Vec<(String, String)>,
    pub body: Option<Json>,
}

pub struct RequestV {
    pub method: Method,
    pub uri: Seq<char>,
    pub headers: Seq<(Seq<char>, Seq<char>)>,
    pub body: Option<JsonV>,
}

impl View for Request {
    type V = RequestV;

    open spec fn view(&self) -> RequestV {
        RequestV {
            method: self.method,
            uri: self.uri@,
            headers: self.headers@.map_values(|h: (String, String)| (h.0@, h.1@)),
            body: opt_view(self.body),
        }
    }
}

/// The headers that an authentication scheme puts on a request.
pub open spec fn auth_headers(authentication: Authentication) -> Seq<(Seq<char>, Seq<char>)> {
    match authentication.header_view() {
        Some(value) => seq![("Authorization"@, value)],
        None => seq![],
    }
}

/// The headers that a body puts on a request: `Content-Type:
/// application/json` where there is one.
pub open spec fn body_headers(body: Option<JsonV>) -> Seq<(Seq<char>, Seq<char>)> {
    match body {
        Some(_) => seq![("Content-Type"@, "application/json"@)],
        None => seq![],
    }
}

/// Whether an HTTP status is one of success.
pub open spec fn is_success(status: u16) -> bool {
    200 <= status < 300
}

/// Builds an `ApiClient`: a URI prefix, an authentication scheme and an
/// optional user agent.
#[derive(Debug, Clone)]
pub struct ApiClientBuilder {
    prefix: String,
    authentication: Authentication,
    user_agent: Option<String>,
}

impl ApiClientBuilder {
    pub closed spec fn spec_prefix(&self) -> Seq<char> {
        self.prefix@
    }

    pub closed spec fn spec_authentication(&self) -> Authentication {
        self.authentication
    }

    pub closed spec fn spec_user_agent(&self) -> Option<Seq<char>> {
        match self.user_agent {
            Some(ua) => Some(ua@),
            None => None,
        }
    }

    /// A builder for `prefix`, without authentication or user agent.
    pub fn new(prefix: &str) -> (r: Self)
        ensures
            r.spec_prefix() == prefix@,
            r.spec_authentication() == Authentication::Anonymous,
            r.spec_user_agent() is None,
    {
        ApiClientBuilder {
            prefix: prefix.to_owned(),
            authentication: Authentication::default(),
            user_agent: None,
        }
    }

    /// Sets the authentication scheme.
    pub fn authentication(&mut self, auth: Authentication) -> (r: &mut Self)
        ensures
            r.spec_prefix() == old(self).spec_prefix(),
            r.spec_authentication() == auth,
            r.spec_user_agent() == old(self).spec_user_agent(),
            *final(self) == *final(r),
    {
        self.authentication = auth;
        self
    }

    /// Sets the user agent.
    pub fn user_agent(&mut self, user_agent: &str) -> (r: &mut Self)
        ensures
            r.spec_prefix() == old(self).spec_prefix(),
            r.spec_authentication() == old(self).spec_authentication(),
            r.spec_user_agent() == Some(user_agent@),
            *final(self) == *final(r),
    {
        self.user_agent = Some(user_agent.to_owned());
        self
    }

    /// The client, with a transport handle made for the builder's user agent,
    /// or `BUILDER_USER_AGENT` where none was set. Fails with `Transport`
    /// where no handle can be made. The builder is left as it was, so it can
    /// build again.
    pub fn build(&self) -> (r: Result<ApiClient, Error>)
        ensures
            r is Ok ==> r->Ok_0.spec_prefix() == self.spec_prefix()
                && r->Ok_0.spec_authentication() == self.spec_authentication()
                && r->Ok_0.spec_user_agent() == user_agent_or(
                    self.spec_user_agent(),
                    BUILDER_USER_AGENT@,
                ),
            r is Err ==> r->Err_0 is Transport,
    {
        let user_agent = match &self.user_agent {
            Some(ua) => chosen_user_agent(Some(ua.as_str()), BUILDER_USER_AGENT),
            None => chosen_user_agent(None, BUILDER_USER_AGENT),
        };
        match build_transport(user_agent) {
            Ok(client) => Ok(
                ApiClient {
                    client,
                    prefix: self.prefix.clone(),
                    authentication: self.authentication.clone(),
                    user_agent: Ghost(user_agent@),
                },
            ),
            Err(message) => Err(Error::Transport(message)),
        }
    }
}

/// The user agent of a client: the one chosen, else `default`.
pub open spec fn user_agent_or(user_agent: Option<Seq<char>>, default: Seq<char>) -> Seq<char> {
    match user_agent {
        Some(ua) => ua,
        None => default,
    }
}

/// The user agent that a client is built with; see `user_agent_or`.
pub fn chosen_user_agent<'a>(user_agent: Option<&'a str>, default: &'a str) -> (r: &'a str)
    ensures
        r@ == user_agent_or(
            match user_agent {
                Some(ua) => Some(ua@),
                None => None,
            },
            default@,
        ),
{
    match user_agent {
        Some(ua) => ua,
        None => default,
    }
}

/// A client of one REST API: a transport handle, the URI prefix that each
/// request path is appended to, and an authentication scheme.
pub struct ApiClient {
    client: reqwest::Client,
    prefix: String,
    authentication: Authentication,
    user_agent: Ghost<Seq<char>>,
}

impl ApiClient {
    pub closed spec fn spec_prefix(&self) -> Seq<char> {
        self.prefix@
    }

    pub closed spec fn spec_authentication(&self) -> Authentication {
        self.authentication
    }

    /// The user agent that the transport handle was made for.
    pub closed spec fn spec_user_agent(&self) -> Seq<char> {
        self.user_agent@
    }

    /// The request that this client makes for `method` on `path`: the URI is
    /// the prefix followed by the path, as they are; the headers are those of
    /// the authentication scheme, then the content type where there is a body;
    /// the body is the one given.
    pub open spec fn planned(&self, method: Method, path: Seq<char>, body: Option<JsonV>) -> RequestV {
        RequestV {
            method,
            uri: self.spec_prefix() + path,
            headers: auth_headers(self.spec_authentication()) + body_headers(body),
            body,
        }
    }

    /// A client for `prefix`, with `authentication`, and a transport handle
    /// made for `user_agent`, or `DEFAULT_USER_AGENT` where it is `None`.
    /// Fails with `Transport` where no handle can be made.
    pub fn try_new(prefix: &str, authentication: Authentication, user_agent: Option<&str>) -> (r:
        Result<Self, Error>)
        ensures
            r is Ok ==> r->Ok_0.spec_prefix() == prefix@ && r->Ok_0.spec_authentication()
                == authentication && r->Ok_0.spec_user_agent() == user_agent_or(
                match user_agent {
                    Some(ua) => Some(ua@),
                    None => None,
                },
                DEFAULT_USER_AGENT@,
            ),
            r is Err ==> r->Err_0 is Transport,
    {
        let chosen = chosen_user_agent(user_agent, DEFAULT_USER_AGENT);
        match build_transport(chosen) {
            Ok(client) => Ok(
                ApiClient {
                    client,
                    prefix: prefix.to_owned(),
                    authentication,
                    user_agent: Ghost(chosen@),
                },
            ),
            Err(message) => Err(Error::Transport(message)),
        }
    }

    /// The transport handle, for sending the requests that this client plans.
    pub fn transport(&self) -> &reqwest::Client {
        &self.client
    }

    pub fn prefix(&self) -> (r: &str)
        ensures
            r@ == self.spec_prefix(),
    {
        self.prefix.as_str()
    }

    pub fn authentication(&self) -> (r: &Authentication)
        ensures
            *r == self.spec_authentication(),
    {
        &self.authentication
    }

    /// The absolute URI of `path`: the prefix and the path, concatenated.
    fn uri(&self, path: &str) -> (r: String)
        ensures
            r@ == self.spec_prefix() + path@,
    {
        self.prefix.clone().concat(path)
    }

    /// The one routine that all requests are made by: `method` on `path`,
    /// with `body` as JSON body where there is one.
    pub fn create_request(&self, method: Method, path: &str, body: Option<Json>) -> (r: Request)
        ensures
            r@ == self.planned(method, path@, opt_view(body)),
    {
        let mut headers: Vec<(String, String)> = Vec::new();
        match self.authentication.authorization() {
            Some(value) => headers.push(("Authorization".to_owned(), value)),
            None => {},
        }
        if body.is_some() {
            headers.push(("Content-Type".to_owned(), "application/json".to_owned()));
        }
        let r = Request { method, uri: self.uri(path), headers, body };
        assert(r@.headers =~= auth_headers(self.authentication) + body_headers(opt_view(r.body)));
        r
    }

    /// A GET of `path`, without body.
    pub fn get_request(&self, path: &str) -> (r: Request)
        ensures
            r@ == self.planned(Method::Get, path@, None),
    {
        self.create_request(Method::Get, path, None)
    }

    /// A POST of `body` to `path`.
    pub fn post_request(&self, path: &str, body: Json) -> (r: Request)
        ensures
            r@ == self.planned(Method::Post, path@, Some(body@)),
    {
        self.create_request(Method::Post, path, Some(body))
    }

    /// A PUT of `body` to `path`.
    pub fn put_request(&self, path: &str, body: Json) -> (r: Request)
        ensures
            r@ == self.planned(Method::Put, path@, Some(body@)),
    {
        self.create_request(Method::Put, path, Some(body))
    }

    /// A DELETE of `path`, without body.
    pub fn delete_request(&self, path: &str) -> (r: Request)
        ensures
            r@ == self.planned(Method::Delete, path@, None),
    {
        self.create_request(Method::Delete, path, None)
    }

    /// A POST of `body` to `path` that asks for a token, signed with a
    /// `Signature` header after the others.
    pub fn token_request(&self, path: &str, signature: &str, body: Json) -> (r: Request)
        ensures
            r@.method == Method::Post,
            r@.uri == self.spec_prefix() + path@,
            r@.headers == (auth_headers(self.spec_authentication()) + body_headers(
                Some(body@),
            )).push(("Signature"@, signature@)),
            r@.body == Some(body@),
    {
        let mut r = self.create_request(Method::Post, path, Some(body));
        let ghost before = r@.headers;
        r.headers.push(("Signature".to_owned(), signature.to_owned()));
        assert(r@.headers =~= before.push(("Signature"@, signature@)));
        r
    }

    /// Takes the answer to a token request. A 2xx answer's text becomes the
    /// bearer token of the requests that follow; any other status fails with
    /// `HttpStatus` and leaves the client as it was.
    pub fn accept_token_response(&mut self, status: u16, body: String) -> (r: Result<(), Error>)
        ensures
            is_success(status) ==> r is Ok && final(self).spec_prefix() == old(self).spec_prefix()
                && final(self).spec_user_agent() == old(self).spec_user_agent()
                && final(self).spec_authentication() == Authentication::Bearer(body),
            !is_success(status) ==> r == Err::<(), Error>(Error::HttpStatus(status)),
            !is_success(status) ==> *final(self) == *old(self),
    {
        if 200 <= status && status < 300 {
            self.authentication = Authentication::Bearer(body);
            Ok(())
        } else {
            Err(Error::HttpStatus(status))
        }
    }
}

/// Every request that a client with Basic credentials plans, whatever its
/// method, path and body, carries one `Authorization` header, first: `Basic `
/// and the base64 text of the user name, a colon and the password. Only the
/// content type of a body follows it.
pub proof fn lemma_basic_header(client: ApiClient, method: Method, path: Seq<char>, body: Option<JsonV>)
    requires
        client.spec_authentication() is Basic,
    ensures
        client.planned(method, path, body).headers == seq![
            (
                "Authorization"@,
                "Basic "@ + base64_of(
                    client.spec_authentication()->Basic_0@.0 + ":"@
                        + client.spec_authentication()->Basic_0@.1,
                ),
            ),
        ] + body_headers(body),
{
}

/// Every request that a client with a bearer token plans, whatever its
/// method, path and body, carries one `Authorization` header, first: `Bearer `
/// and the token. Only the content type of a body follows it.
pub proof fn lemma_bearer_header(client: ApiClient, method: Method, path: Seq<char>, body: Option<JsonV>)
    requires
        client.spec_authentication() is Bearer,
    ensures
        client.planned(method, path, body).headers == seq![
            ("Authorization"@, "Bearer "@ + client.spec_authentication()->Bearer_0@),
        ] + body_headers(body),
{
}

/// A record sent as the body of a request reads back as that record, under
/// the record's own field names.
pub proof fn lemma_body_round_trip<T: JsonRecord>(
    client: ApiClient,
    method: Method,
    path: Seq<char>,
    v: T::V,
)
    ensures
        client.planned(method, path, Some(encode_view::<T>(v))).body == Some(
            encode_view::<T>(v),
        ),
        T::decode_view(client.planned(method, path, Some(encode_view::<T>(v))).body->0) == Some(
            v,
        ),
{
    T::lemma_round_trip(v);
}

/// A record sent as the body of a request leaves out the key of each
/// optional field that it lacks.
pub proof fn lemma_body_omits_absent<T: JsonRecord>(
    client: ApiClient,
    method: Method,
    path: Seq<char>,
    v: T::V,
    i: int,
)
    requires
        0 <= i < T::entries(v).len(),
        T::entries(v)[i].1 is None,
    ensures
        !has_key(client.planned(method, path, Some(encode_view::<T>(v))).body->0, T::entries(v)[i].0),
{
    lemma_absent_omitted::<T>(v, i);
}

/// The outcome of a response that carries no value: success for a 2xx
/// status, else an `HttpStatus` failure with the status. The body is not read.
pub fn check_status(status: u16) -> (r: Result<(), Error>)
    ensures
        is_success(status) ==> r == Ok::<(), Error>(()),
        !is_success(status) ==> r == Err::<(), Error>(Error::HttpStatus(status)),
{
    if 200 <= status && status < 300 {
        Ok(())
    } else {
        Err(Error::HttpStatus(status))
    }
}

/// What a response reads as, for a record type `T`: `HttpStatus` for a
/// status other than 2xx; else the record that the body reads as, or `Decode`
/// where there is none.
pub open spec fn response_view<T: JsonRecord>(status: u16, body: Option<JsonV>) -> Result<
    T::V,
    Error,
> {
    if !is_success(status) {
        Err(Error::HttpStatus(status))
    } else {
        match body {
            Some(j) => match T::decode_view(j) {
                Some(v) => Ok(v),
                None => Err(Error::Decode),
            },
            None => Err(Error::Decode),
        }
    }
}

/// A 2xx response whose body is the document of a record reads as that
/// record.
pub proof fn lemma_response_round_trip<T: JsonRecord>(status: u16, v: T::V)
    requires
        is_success(status),
    ensures
        response_view::<T>(status, Some(encode_view::<T>(v))) == Ok::<T::V, Error>(v),
{
    T::lemma_round_trip(v);
}

/// The record that a response carries. `body` is the body read as JSON, or
/// `None` where it is not JSON. A status other than 2xx fails with
/// `HttpStatus`, whatever the body; a 2xx body that is no such record fails
/// with `Decode`.
pub fn decode_response<T: JsonRecord>(status: u16, body: Option<Json>) -> (r: Result<T, Error>)
    ensures
        match response_view::<T>(status, opt_view(body)) {
            Ok(v) => r is Ok && r->Ok_0@ == v,
            Err(e) => r is Err && r->Err_0 == e,
        },
        !is_success(status) ==> r is Err && r->Err_0 == Error::HttpStatus(status),
        is_success(status) ==> match opt_view(body) {
            Some(j) => match T::decode_view(j) {
                Some(v) => r is Ok && r->Ok_0@ == v,
                None => r is Err && r->Err_0 == Error::Decode,
            },
            None => r is Err && r->Err_0 == Error::Decode,
        },
{
    if !(200 <= status && status < 300) {
        return Err(Error::HttpStatus(status));
    }
    match body {
        Some(j) => match T::from_json(&j) {
            Some(record) => Ok(record),
            None => Err(Error::Decode),
        },
        None => Err(Error::Decode),
    }
}

/// The records that a response carries, as `decode_response` does for one.
pub fn decode_list_response<T: JsonRecord>(status: u16, body: Option<Json>) -> (r: Result<
    Vec<T>,
    Error,
>)
    ensures
        !is_success(status) ==> r is Err && r->Err_0 == Error::HttpStatus(status),
        is_success(status) ==> match opt_view(body) {
            Some(j) => match decode_list_view::<T>(j) {
                Some(vs) => r is Ok && views(r->Ok_0@) == vs,
                None => r is Err && r->Err_0 == Error::Decode,
            },
            None => r is Err && r->Err_0 == Error::Decode,
        },
{
    if !(200 <= status && status < 300) {
        return Err(Error::HttpStatus(status));
    }
    match body {
        Some(j) => match decode_list(&j) {
            Some(records) => Ok(records),
            None => Err(Error::Decode),
        },
        None => Err(Error::Decode),
    }
}

} // verus!
