//! The query executor: maps what the transport capability handed back to a
//! typed response or a structured error, never aborting.

use vstd::prelude::*;

use crate::http::HttpRequestDescriptor;
use crate::http::HttpResponseDescriptor;
use crate::http::HttpResponseType;

verus! {

/// A failure of the transport capability itself: unreachable host,
/// malformed URL, I/O failure. Carries the transport's own message.
#[derive(Clone, PartialEq, Eq, Debug)]
pub struct TransportError {
    pub message: String,
}

/// A failure surfaced by the query pipeline: either the transport failed,
/// or a value that was owed (a text body) was absent.
#[derive(Clone, PartialEq, Eq, Debug)]
pub enum QueryError {
    /// The transport capability failed; its error is kept whole.
    Transport(TransportError),
    /// An expected value was absent from an otherwise successful exchange.
    Unwrap,
}

/// Finishes a query whose transport call has completed: a transport failure
/// is surfaced as `QueryError::Transport` with the error kept whole, never a
/// partial response; a completed exchange is returned as it came, status
/// code included, except that a missing body on a request that expected text
/// yields `QueryError::Unwrap` instead of an abort.
pub fn execute_query(
    request: &HttpRequestDescriptor,
    outcome: Result<HttpResponseDescriptor, TransportError>,
) -> (r: Result<HttpResponseDescriptor, QueryError>)
    ensures
        outcome matches Err(t) ==> r == Err::<HttpResponseDescriptor, QueryError>(
            QueryError::Transport(t),
        ),
        outcome matches Ok(resp) ==> r == (if request.response_type == HttpResponseType::Text
            && resp.body is None {
            Err::<HttpResponseDescriptor, QueryError>(QueryError::Unwrap)
        } else {
            Ok::<HttpResponseDescriptor, QueryError>(resp)
        }),
{
    match outcome {
        Err(t) => Err(QueryError::Transport(t)),
        Ok(resp) => {
            if request.response_type == HttpResponseType::Text && resp.body.is_none() {
                Err(QueryError::Unwrap)
            } else {
                Ok(resp)
            }
        },
    }
}

} // verus!
