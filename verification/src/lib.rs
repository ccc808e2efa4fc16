//! A minimal typed HTTP-query client: request descriptors are built from
//! caller-supplied values, sent through an injected transport capability,
//! and the outcome is mapped to a typed response or a structured error.

pub mod chain;
pub mod http;
pub mod query;
pub mod random;

pub use chain::block_hash_request;
pub use chain::chain_get_block_hash;
pub use chain::chain_get_metadata;
pub use chain::ChainMetadataOutput;
pub use chain::CustomType;
pub use chain::InputChainGetBlockHash;
pub use chain::InputChainGetMetadata;
pub use chain::JsonValue;
pub use http::build_request;
pub use http::HttpHeader;
pub use http::HttpMethod;
pub use http::HttpRequestDescriptor;
pub use http::HttpResponseDescriptor;
pub use http::HttpResponseType;
pub use http::HttpUrlParam;
pub use query::execute_query;
pub use query::QueryError;
pub use query::TransportError;
pub use random::custom_random_number;
