//! Request and response descriptors, and the builder that assembles a
//! request from caller-supplied values.

use vstd::prelude::*;

verus! {

/// HTTP verb of a request. Only `Get` is exercised by this client.
#[derive(Clone, Copy, PartialEq, Eq, Structural, Debug)]
pub enum HttpMethod {
    Get,
}

/// Expected encoding of a response body.
#[derive(Clone, Copy, PartialEq, Eq, Structural, Debug)]
pub enum HttpResponseType {
    Text,
    Binary,
}

/// One request header: a key/value pair. Duplicate keys are allowed and
/// insertion order is preserved by the builder.
#[derive(Clone, PartialEq, Eq, Debug)]
pub struct HttpHeader {
    pub key: String,
    pub value: String,
}

/// One URL query parameter: a key/value pair, kept in insertion order.
#[derive(Clone, PartialEq, Eq, Debug)]
pub struct HttpUrlParam {
    pub key: String,
    pub value: String,
}

/// A plain description of an HTTP request, with no behavior attached.
#[derive(Clone, PartialEq, Eq, Debug)]
pub struct HttpRequestDescriptor {
    pub url: String,
    pub method: HttpMethod,
    pub response_type: HttpResponseType,
    pub headers: Vec<HttpHeader>,
    pub url_params: Vec<HttpUrlParam>,
    pub body: Option<String>,
}

/// A plain description of an HTTP response. The status code is optional:
/// a transport need not populate it.
#[derive(Clone, PartialEq, Eq, Debug)]
pub struct HttpResponseDescriptor {
    pub status_code: Option<u16>,
    pub body: Option<String>,
}

impl HttpRequestDescriptor {
    /// A well-formed descriptor carries a non-empty URL.
    pub open spec fn wf(&self) -> bool {
        self.url@.len() > 0
    }
}

/// Assembles a request descriptor from the given values: the URL, headers
/// and URL parameters are taken over exactly, with no normalization and in
/// their given order; a missing response type defaults to `Text`.
///
/// Malformed URLs are not rejected here: judging them is left to the
/// transport. Only an empty URL is ruled out.
pub fn build_request(
    url: String,
    headers: Vec<HttpHeader>,
    url_params: Vec<HttpUrlParam>,
    body: Option<String>,
    response_type: Option<HttpResponseType>,
) -> (r: HttpRequestDescriptor)
    requires
        url@.len() > 0,
    ensures
        r.url == url,
        r.method == HttpMethod::Get,
        r.headers == headers,
        r.url_params == url_params,
        r.body == body,
        response_type matches Some(t) ==> r.response_type == t,
        response_type is None ==> r.response_type == HttpResponseType::Text,
        r.wf(),
{
    let rt = match response_type {
        Some(t) => t,
        None => HttpResponseType::Text,
    };
    HttpRequestDescriptor {
        url,
        method: HttpMethod::Get,
        response_type: rt,
        headers,
        url_params,
        body,
    }
}

} // verus!
