//! Plain-value model of the HTTP exchange.
//!
//! A backend never performs network I/O: it produces an [`HttpRequest`]
//! value and interprets an [`HttpResponse`] value. The injected transport
//! collaborator that actually sends requests lives outside this crate; it
//! receives these values and hands the reply back as plain values. Header
//! names are carried lowercase.

use vstd::prelude::*;
use crate::error::Error;
use crate::kv::kv_get;
use crate::kv::kv_lookup;

verus! {

/// A shared handle on the injected transport collaborator. Cloning is
/// cheap, and one handle may serve many concurrent operations; the handle
/// itself carries no state this crate reads.
#[derive(Clone, Debug)]
pub struct HttpClient {}

impl HttpClient {
    /// A default transport handle. The contract allows construction to
    /// fail so builders must handle it; this construction never does.
    pub fn new() -> (r: Result<HttpClient, Error>)
        ensures
            r is Ok,
    {
        Ok(HttpClient {  })
    }
}

/// The HTTP methods the adapters use.
#[derive(Clone, Copy, Debug, PartialEq, Eq, Structural)]
pub enum HttpMethod {
    Get,
    Put,
    Delete,
}

/// One remote request, as plain values: method, absolute URL, lowercase
/// header pairs, the declared content length if any, and the body bytes.
#[derive(Debug)]
pub struct HttpRequest {
    pub method: HttpMethod,
    pub url: String,
    pub headers: Vec<(String, String)>,
    pub content_length: Option<u64>,
    pub body: Vec<u8>,
}

/// One remote reply, as plain values: status code, lowercase header pairs,
/// and the body bytes.
#[derive(Debug)]
pub struct HttpResponse {
    pub status: u16,
    pub headers: Vec<(String, String)>,
    pub body: Vec<u8>,
}

impl HttpResponse {
    /// The value of the first header named `name`, if any.
    pub fn header(&self, name: &str) -> (r: Option<String>)
        ensures
            r == kv_lookup(self.headers@, name@),
    {
        kv_get(&self.headers, name)
    }
}

/// The `Bearer` authorization header value built from a credential.
pub open spec fn bearer(token: Seq<char>) -> Seq<char> {
    "Bearer "@ + token
}

/// Format the authorization header value for a bearer credential.
pub fn format_bearer(token: &str) -> (r: String)
    ensures
        r@ == bearer(token@),
{
    let mut s = String::from_str("Bearer ");
    s.append(token);
    s
}

} // verus!
