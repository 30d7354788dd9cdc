//! The answers that go back to the caller: the upstream answer relayed
//! unchanged, or the fixed answer to a request that matches no mode.

use crate::consts::{NOT_FOUND_BODY, NOT_FOUND_STATUS};
use crate::headers::{values_are_text, HeaderView, Headers};
use crate::message::{GatewayError, OutboundResponse, ResponseView, TransportError, UpstreamResponse};
use vstd::prelude::*;
use vstd::string::{StrSliceExecFns, StringSliceAdditionalSpecFns};

verus! {

/// The answer to a request that matches no mode: status 404, no headers,
/// and the words "Not Found" as the body.
pub open spec fn not_found() -> ResponseView {
    ResponseView {
        status: NOT_FOUND_STATUS,
        headers: Seq::<HeaderView>::empty(),
        body: NOT_FOUND_BODY.spec_bytes(),
    }
}

/// What relaying an upstream answer gives: the same status, headers and
/// body, or a failure where a header value is not valid header text.
pub open spec fn relay_spec(upstream: ResponseView) -> Result<ResponseView, GatewayError> {
    if values_are_text(upstream.headers) {
        Ok(upstream)
    } else {
        Err(GatewayError::HeaderEncoding)
    }
}

/// What the answer to the caller is once the upstream call has ended.
pub open spec fn settle_spec(fetched: Result<ResponseView, ()>) -> Result<
    ResponseView,
    GatewayError,
> {
    match fetched {
        Ok(upstream) => relay_spec(upstream),
        Err(_) => Err(GatewayError::Transport),
    }
}

/// What an outcome is to the contracts.
pub open spec fn outcome_view(outcome: Result<OutboundResponse, GatewayError>) -> Result<
    ResponseView,
    GatewayError,
> {
    match outcome {
        Ok(response) => Ok(response@),
        Err(error) => Err(error),
    }
}

/// What the end of an upstream call is to the contracts.
pub open spec fn fetched_view(fetched: Result<UpstreamResponse, TransportError>) -> Result<
    ResponseView,
    (),
> {
    match fetched {
        Ok(upstream) => Ok(upstream@),
        Err(_) => Err(()),
    }
}

/// The answer to a request that matches no mode.
pub fn response_404() -> (r: OutboundResponse)
    ensures
        r@ == not_found(),
{
    OutboundResponse {
        status: NOT_FOUND_STATUS,
        headers: Headers::new(),
        body: NOT_FOUND_BODY.as_bytes_vec(),
    }
}

/// Relays an upstream answer: status, every header and the body are passed
/// on as they are; nothing is added, removed or rewritten. A header value
/// that is not valid header text fails the relay as a whole.
pub fn relay(upstream: UpstreamResponse) -> (r: Result<OutboundResponse, GatewayError>)
    ensures
        outcome_view(r) == relay_spec(upstream@),
        values_are_text(upstream.headers@) ==> r is Ok && r->Ok_0@ == upstream@,
        !values_are_text(upstream.headers@) ==> r == Err::<OutboundResponse, GatewayError>(
            GatewayError::HeaderEncoding,
        ),
{
    if upstream.headers.values_are_text() {
        Ok(
            OutboundResponse {
                status: upstream.status,
                headers: upstream.headers,
                body: upstream.body,
            },
        )
    } else {
        Err(GatewayError::HeaderEncoding)
    }
}

/// The answer to the caller once the upstream call has ended: the relayed
/// answer, or a failure of the whole request where the call itself failed.
/// A failed call is never turned into a 404.
pub fn settle(fetched: Result<UpstreamResponse, TransportError>) -> (r: Result<
    OutboundResponse,
    GatewayError,
>)
    ensures
        outcome_view(r) == settle_spec(fetched_view(fetched)),
        fetched is Err ==> r == Err::<OutboundResponse, GatewayError>(GatewayError::Transport),
{
    match fetched {
        Ok(upstream) => relay(upstream),
        Err(_) => Err(GatewayError::Transport),
    }
}

} // verus!
