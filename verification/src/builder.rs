//! The request that goes upstream, for each of the three modes.

use crate::consts::{ACCEPT, CONTENT_TYPE, DNS_JSON, DNS_MESSAGE};
use crate::headers::{index_of, put, HeaderView, Headers};
use crate::message::{
    Action, ActionView, DohMode, GatewayError, InboundRequest, InboundRequestView, Method,
    UpstreamRequest, UpstreamRequestView,
};
use crate::query::{parse_query, query_text, target, target_url, text_of, url_query};
use crate::relay::{not_found, response_404};
use crate::text::{lemma_same_name_len, same_name};
use vstd::prelude::*;
use vstd::slice::slice_to_vec;

verus! {

/// The headers of an optional set of headers: none where there is no set.
pub open spec fn headers_of(headers: Option<Headers>) -> Seq<HeaderView> {
    match headers {
        Some(h) => h@,
        None => Seq::<HeaderView>::empty(),
    }
}

/// The bytes of an optional slice.
pub open spec fn slice_of(body: Option<&[u8]>) -> Option<Seq<u8>> {
    match body {
        Some(b) => Some(b@),
        None => None,
    }
}

/// The upstream request of a wire-format POST: the upstream URL as it is,
/// both headers set to the wire-format media type, and the body unchanged.
pub open spec fn wireformat_post(upstream: Seq<char>, body: Seq<u8>) -> UpstreamRequestView {
    UpstreamRequestView {
        url: upstream,
        method: Method::Post,
        headers: seq![
            HeaderView { name: ACCEPT@, value: DNS_MESSAGE@ },
            HeaderView { name: CONTENT_TYPE@, value: DNS_MESSAGE@ },
        ],
        body: Some(body),
    }
}

/// The upstream request of a GET: the target URL, one `Accept` header, and
/// no body.
pub open spec fn get_of(target: Seq<char>, accept: Seq<char>) -> UpstreamRequestView {
    UpstreamRequestView {
        url: target,
        method: Method::Get,
        headers: seq![HeaderView { name: ACCEPT@, value: accept }],
        body: None,
    }
}

/// What is done with a GET once its target URL has or has not been built.
pub open spec fn get_request_spec(target: Option<Seq<char>>, accept: Seq<char>) -> ActionView {
    match target {
        Some(url) => ActionView::Forward(get_of(url, accept)),
        None => ActionView::Fail(GatewayError::MalformedUrl),
    }
}

/// What is done with a GET whose URL gave `parsed` when its query was read:
/// a URL that did not parse is answered with 404; otherwise the query is
/// carried over to the upstream URL, and the request fails where no target
/// can be built.
pub open spec fn get_action(
    parsed: Option<Option<Seq<char>>>,
    upstream: Seq<char>,
    accept: Seq<char>,
) -> ActionView {
    match parsed {
        Some(query) => get_request_spec(target(upstream, query), accept),
        None => ActionView::Respond(not_found()),
    }
}

/// What is done with a request of the given mode.
pub open spec fn build_spec(upstream: Seq<char>, mode: DohMode, request: InboundRequestView) -> ActionView {
    match mode {
        DohMode::WireformatPost => ActionView::Forward(wireformat_post(upstream, request.body)),
        DohMode::JsonGet => get_action(url_query(request.url), upstream, DNS_JSON@),
        DohMode::WireformatGet => get_action(url_query(request.url), upstream, DNS_MESSAGE@),
    }
}

/// Puts a request together from its parts. Without headers the request has
/// none; without a body it has none.
pub fn make_request(url: &str, method: Method, headers: Option<Headers>, body: Option<&[u8]>) -> (r:
    UpstreamRequest)
    ensures
        r@ == (UpstreamRequestView {
            url: url@,
            method,
            headers: headers_of(headers),
            body: slice_of(body),
        }),
{
    let headers = match headers {
        Some(h) => h,
        None => Headers::new(),
    };
    let body = match body {
        Some(b) => Some(slice_to_vec(b)),
        None => None,
    };
    UpstreamRequest { url: url.to_owned(), method, headers, body }
}

/// The upstream request of a wire-format POST with the given body.
pub fn post_dns_wireformat(upstream: &str, body: &[u8]) -> (r: UpstreamRequest)
    ensures
        r@ == wireformat_post(upstream@, body@),
{
    let mut headers = Headers::new();
    headers.set(ACCEPT, DNS_MESSAGE);
    headers.set(CONTENT_TYPE, DNS_MESSAGE);
    proof {
        reveal_strlit("Accept");
        reveal_strlit("Content-Type");
        reveal_with_fuel(index_of, 2);
        let first = Seq::<HeaderView>::empty().push(
            HeaderView { name: ACCEPT@, value: DNS_MESSAGE@ },
        );
        assert(put(Seq::<HeaderView>::empty(), ACCEPT@, DNS_MESSAGE@) =~= first);
        if same_name(ACCEPT@, CONTENT_TYPE@) {
            lemma_same_name_len(ACCEPT@, CONTENT_TYPE@);
        }
        assert(first.drop_first() =~= Seq::<HeaderView>::empty());
        assert(headers@ =~= wireformat_post(upstream@, body@).headers);
    }
    make_request(upstream, Method::Post, Some(headers), Some(body))
}

/// The upstream GET with the given `Accept` value, once its target URL has
/// been built; a target that could not be built fails the request.
pub fn get_request(target: Option<String>, accept: &str) -> (r: Action)
    ensures
        r@ == get_request_spec(text_of(target), accept@),
{
    match target {
        Some(url) => {
            let mut headers = Headers::new();
            headers.set(ACCEPT, accept);
            proof {
                assert(headers@ =~= get_of(url@, accept@).headers);
            }
            Action::Forward(make_request(url.as_str(), Method::Get, Some(headers), None))
        },
        None => Action::Fail(GatewayError::MalformedUrl),
    }
}

/// What is done with a GET, given what reading its URL's query gave.
pub fn answer_get(parsed: Option<Option<String>>, upstream: &str, accept: &str) -> (r: Action)
    ensures
        r@ == get_action(query_text(parsed), upstream@, accept@),
        parsed is None ==> r@ == ActionView::Respond(not_found()),
{
    match parsed {
        Some(query) => get_request(target_url(upstream, &query), accept),
        None => Action::Respond(response_404()),
    }
}

/// What is done with a wire-format GET for `url`: the upstream GET that
/// carries the same query and accepts the wire format.
pub fn get_dns_wireformat(upstream: &str, url: &str) -> (r: Action)
    ensures
        r@ == get_action(url_query(url@), upstream@, DNS_MESSAGE@),
{
    answer_get(parse_query(url), upstream, DNS_MESSAGE)
}

/// What is done with a JSON GET for `url`: the upstream GET that carries the
/// same query and accepts JSON.
pub fn get_dns_json(upstream: &str, url: &str) -> (r: Action)
    ensures
        r@ == get_action(url_query(url@), upstream@, DNS_JSON@),
{
    answer_get(parse_query(url), upstream, DNS_JSON)
}

/// What is done with a request once its mode is known.
pub fn build(upstream: &str, mode: DohMode, request: &InboundRequest) -> (r: Action)
    ensures
        r@ == build_spec(upstream@, mode, request@),
{
    match mode {
        DohMode::WireformatPost => Action::Forward(
            post_dns_wireformat(upstream, request.body.as_slice()),
        ),
        DohMode::JsonGet => get_dns_json(upstream, request.url.as_str()),
        DohMode::WireformatGet => get_dns_wireformat(upstream, request.url.as_str()),
    }
}

} // verus!
