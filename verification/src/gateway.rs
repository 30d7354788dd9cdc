//! The gateway's decision for one inbound request.

use crate::builder::{build, build_spec, get_of, wireformat_post};
use crate::classify::{carries_dns_param, classify, classify_spec, names_dns_message, wants_dns_json};
use crate::consts::{DNS_JSON, DNS_MESSAGE};
use crate::message::{Action, ActionView, GatewayError, InboundRequest, InboundRequestView, Method};
use crate::query::{has_room, url_query, url_text, url_with_query};
use crate::relay::{not_found, response_404};
use vstd::prelude::*;

verus! {

/// What is done with a request: it is classified, and the request of its
/// mode is built; a request of no mode is answered with 404.
pub open spec fn dispatch_spec(upstream: Seq<char>, request: InboundRequestView) -> ActionView {
    match classify_spec(request.method, request.headers, url_query(request.url)) {
        Some(mode) => build_spec(upstream, mode, request),
        None => ActionView::Respond(not_found()),
    }
}

/// Decides what to do with an inbound request, with `upstream` as the
/// resolver's URL: forward a request upstream, answer with 404 without any
/// upstream call, or fail.
///
/// - A POST whose `Content-Type` is the wire-format media type goes upstream
///   as a POST to `upstream`, with `Accept` and `Content-Type` both set to
///   that media type and the same body.
/// - A GET whose `Accept` is the JSON media type goes upstream as a GET
///   that carries the query of the inbound URL and accepts JSON.
/// - Any other GET whose query has a `dns` parameter goes upstream as a GET
///   that carries the query of the inbound URL and accepts the wire format.
/// - Every other request is answered with 404, and so is a GET of the
///   second kind whose URL does not parse.
/// - Where `upstream` itself does not parse, a GET fails. It also fails
///   where `upstream` has no room for the query: where the two together
///   could outgrow the 32-bit positions of the URL library, which takes
///   texts of hundreds of millions of characters.
pub fn dispatch(upstream: &str, request: &InboundRequest) -> (action: Action)
    ensures
        action@ == dispatch_spec(upstream@, request@),
        request.method == Method::Post && names_dns_message(request.headers@) ==> action@
            == ActionView::Forward(wireformat_post(upstream@, request.body@)),
        request.method == Method::Get && wants_dns_json(request.headers@) ==> (url_query(
            request.url@,
        ) matches Some(query) ==> (has_room(url_text(upstream@), query) ==> (url_with_query(
            upstream@,
            query,
        ) matches Some(url) ==> action@ == ActionView::Forward(get_of(url, DNS_JSON@))))),
        request.method == Method::Get && !wants_dns_json(request.headers@) && carries_dns_param(
            url_query(request.url@),
        ) ==> (url_query(request.url@) matches Some(query) ==> (has_room(
            url_text(upstream@),
            query,
        ) ==> (url_with_query(upstream@, query) matches Some(url) ==> action@
            == ActionView::Forward(get_of(url, DNS_MESSAGE@))))),
        !(request.method == Method::Post && names_dns_message(request.headers@)) && !(
        request.method == Method::Get && wants_dns_json(request.headers@)) && !(request.method
            == Method::Get && carries_dns_param(url_query(request.url@))) ==> action@
            == ActionView::Respond(not_found()),
        request.method == Method::Get && wants_dns_json(request.headers@) && url_query(
            request.url@,
        ) is None ==> action@ == ActionView::Respond(not_found()),
        action@ == ActionView::Fail(GatewayError::MalformedUrl) || action@ is Forward || action@
            == ActionView::Respond(not_found()),
{
    match classify(request.method, &request.headers, request.url.as_str()) {
        Some(mode) => build(upstream, mode, request),
        None => Action::Respond(response_404()),
    }
}

} // verus!
