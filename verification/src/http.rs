//! An HTTP request as plain values.

use crate::model::views;
use vstd::prelude::*;

verus! {

/// The method of a request.
#[derive(Debug, Clone, Copy, PartialEq, Eq, Structural)]
pub enum Method {
    Get,
    Post,
}

/// One header line of a request.
#[derive(Debug, Clone, PartialEq, Eq)]
pub struct Header {
    pub name: String,
    pub value: String,
}

/// The mathematical value of a `Header`.
pub struct HeaderView {
    pub name: Seq<char>,
    pub value: Seq<char>,
}

impl View for Header {
    type V = HeaderView;

    open spec fn view(&self) -> HeaderView {
        HeaderView { name: self.name@, value: self.value@ }
    }
}

/// A request to send: the method, the address, the headers in their order,
/// and the body where there is one.
#[derive(Debug, Clone, PartialEq, Eq)]
pub struct HttpRequest {
    pub method: Method,
    pub url: String,
    pub headers: Vec<Header>,
    pub body: Option<String>,
}

/// The mathematical value of an `HttpRequest`.
pub struct HttpRequestView {
    pub method: Method,
    pub url: Seq<char>,
    pub headers: Seq<HeaderView>,
    pub body: Option<Seq<char>>,
}

impl View for HttpRequest {
    type V = HttpRequestView;

    open spec fn view(&self) -> HttpRequestView {
        HttpRequestView {
            method: self.method,
            url: self.url@,
            headers: views(self.headers@),
            body: match self.body {
                Some(body) => Some(body@),
                None => None,
            },
        }
    }
}

/// The name of the header that carries a bearer credential.
pub const AUTHORIZATION: &'static str = "authorization";

/// The name of the header that says what the body is.
pub const CONTENT_TYPE: &'static str = "content-type";

/// A `GET` request for `url` with `token` as its authorization.
pub open spec fn authorized_get(url: Seq<char>, token: Seq<char>) -> HttpRequestView {
    HttpRequestView {
        method: Method::Get,
        url,
        headers: seq![HeaderView { name: AUTHORIZATION@, value: token }],
        body: None,
    }
}

impl HttpRequest {
    /// A `GET` request for `url` with `token` as its authorization.
    pub fn get_authorized(url: String, token: &str) -> (r: HttpRequest)
        ensures
            r@ == authorized_get(url@, token@),
    {
        let mut headers: Vec<Header> = Vec::new();
        headers.push(
            Header { name: AUTHORIZATION.to_owned(), value: token.to_owned() },
        );
        let r = HttpRequest { method: Method::Get, url, headers, body: None };
        assert(r@.headers =~= authorized_get(url@, token@).headers);
        r
    }
}

} // verus!
