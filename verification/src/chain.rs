//! The demo chain entry points: one issues a fixed HTTP GET through the
//! transport capability and projects the body into a narrow output type,
//! the other returns the chain-metadata placeholder output.

use vstd::prelude::*;
use vstd::string::StringExecFns;

use crate::http::HttpHeader;
use crate::http::HttpMethod;
use crate::http::HttpRequestDescriptor;
use crate::http::HttpResponseDescriptor;
use crate::http::HttpResponseType;
use crate::http::HttpUrlParam;
use crate::query::QueryError;
use crate::query::TransportError;

verus! {

/// Input of the block-hash entry point. The demo ignores it.
#[derive(Clone, Copy, PartialEq, Eq, Structural, Debug)]
pub struct InputChainGetBlockHash {
    pub block_number: u32,
}

/// Input of the metadata entry point. The demo ignores it.
#[derive(Clone, PartialEq, Eq, Debug)]
pub struct InputChainGetMetadata {
    pub url: String,
}

/// The narrow output of the block-hash entry point: one string field,
/// holding the response body.
#[derive(Clone, PartialEq, Eq, Debug)]
pub struct CustomType {
    pub prop: String,
}

/// A placeholder JSON value. The chain-metadata interface is stubbed and
/// yields only the null value.
#[derive(Clone, Copy, PartialEq, Eq, Structural, Debug)]
pub enum JsonValue {
    Null,
}

/// Output of the metadata entry point. While the chain-metadata interface
/// is stubbed, every field holds its empty placeholder.
#[derive(Clone, PartialEq, Eq, Debug)]
pub struct ChainMetadataOutput {
    pub metadata: JsonValue,
    pub pallets: JsonValue,
    pub events: Vec<String>,
    pub errors: Vec<String>,
}

/// Builds the fixed request the block-hash demo sends: the demo URL, one
/// `user-agent` header, one dummy query parameter, an empty body, and a
/// text response expected.
pub fn block_hash_request() -> (r: HttpRequestDescriptor)
    ensures
        r.url@ == "https://jsonplaceholder.typicode.com/photos/1"@,
        r.method == HttpMethod::Get,
        r.response_type == HttpResponseType::Text,
        r.headers@.len() == 1,
        r.headers@[0].key@ == "user-agent"@,
        r.headers@[0].value@ == "HttpDemo"@,
        r.url_params@.len() == 1,
        r.url_params@[0].key@ == "dummyQueryParam"@,
        r.url_params@[0].value@ == "20"@,
        r.body matches Some(b) && b@.len() == 0,
        r.wf(),
{
    proof {
        reveal_strlit("https://jsonplaceholder.typicode.com/photos/1");
        reveal_strlit("");
    }
    let url = String::from_str("https://jsonplaceholder.typicode.com/photos/1");
    let headers = vec![
        HttpHeader { key: String::from_str("user-agent"), value: String::from_str("HttpDemo") },
    ];
    let url_params = vec![
        HttpUrlParam {
            key: String::from_str("dummyQueryParam"),
            value: String::from_str("20"),
        },
    ];
    crate::http::build_request(
        url,
        headers,
        url_params,
        Some(String::from_str("")),
        Some(HttpResponseType::Text),
    )
}

/// The block-hash entry point, given what the transport capability handed
/// back for the fixed demo request: a completed exchange whose body is
/// present becomes the body wrapped in `CustomType`; a transport failure
/// is surfaced whole; a completed exchange with no body yields
/// `QueryError::Unwrap` instead of an abort.
pub fn chain_get_block_hash(
    _input: InputChainGetBlockHash,
    outcome: Result<HttpResponseDescriptor, TransportError>,
) -> (r: Result<CustomType, QueryError>)
    ensures
        outcome matches Err(t) ==> r == Err::<CustomType, QueryError>(QueryError::Transport(t)),
        outcome matches Ok(resp) ==> r == (match resp.body {
            Some(b) => Ok::<CustomType, QueryError>((CustomType { prop: b })),
            None => Err::<CustomType, QueryError>(QueryError::Unwrap),
        }),
{
    let request = block_hash_request();
    match crate::query::execute_query(&request, outcome) {
        Err(e) => Err(e),
        Ok(resp) => match resp.body {
            Some(b) => Ok(CustomType { prop: b }),
            None => Err(QueryError::Unwrap),
        },
    }
}

/// The metadata entry point, given whatever the chain source handed back
/// for its metadata and block-hash fetches. While the interface is stubbed
/// it discards both and returns the placeholder output: null metadata and
/// pallets, no events, no errors — whatever the input and the fetched
/// values were.
pub fn chain_get_metadata(
    _input: InputChainGetMetadata,
    _metadata: Option<String>,
    _block_hash: Option<String>,
) -> (r: Option<ChainMetadataOutput>)
    ensures
        r matches Some(out) && out.metadata is Null && out.pallets is Null
            && out.events@.len() == 0 && out.errors@.len() == 0,
{
    Some(
        ChainMetadataOutput {
            metadata: JsonValue::Null,
            pallets: JsonValue::Null,
            events: Vec::new(),
            errors: Vec::new(),
        },
    )
}

} // verus!
