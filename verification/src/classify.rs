//! Which of the three modes, if any, an inbound request uses.
//!
//! The rules are tried in a fixed order and the first that holds decides:
//! a wire-format POST, then a JSON GET, then a wire-format GET.

use crate::consts::{ACCEPT, CONTENT_TYPE, DNS_JSON, DNS_MESSAGE, DNS_PARAM};
use crate::headers::{lookup, HeaderView, Headers};
use crate::message::{DohMode, Method};
use crate::query::{has_key, parse_query, query_has_key, query_text, url_query};
use crate::text::text_eq;
use vstd::prelude::*;

verus! {

/// The `Content-Type` header is exactly the wire-format media type.
pub open spec fn names_dns_message(headers: Seq<HeaderView>) -> bool {
    lookup(headers, CONTENT_TYPE@) == Some(DNS_MESSAGE@)
}

/// The `Accept` header is exactly the JSON media type.
pub open spec fn wants_dns_json(headers: Seq<HeaderView>) -> bool {
    lookup(headers, ACCEPT@) == Some(DNS_JSON@)
}

/// The URL was parsed, has a query, and the query has a `dns` parameter.
pub open spec fn carries_dns_param(parsed: Option<Option<Seq<char>>>) -> bool {
    parsed matches Some(Some(query)) && has_key(query, DNS_PARAM@)
}

/// The mode of a request with the given method and headers whose URL gave
/// `parsed` when its query was read.
pub open spec fn classify_spec(
    method: Method,
    headers: Seq<HeaderView>,
    parsed: Option<Option<Seq<char>>>,
) -> Option<DohMode> {
    if method == Method::Post && names_dns_message(headers) {
        Some(DohMode::WireformatPost)
    } else if method == Method::Get && wants_dns_json(headers) {
        Some(DohMode::JsonGet)
    } else if method == Method::Get && carries_dns_param(parsed) {
        Some(DohMode::WireformatGet)
    } else {
        None
    }
}

/// Whether the `Content-Type` header names the wire-format media type. The
/// name is found whatever its case; the value must match to the letter.
pub fn has_dns_content_type(headers: &Headers) -> (r: bool)
    ensures
        r == names_dns_message(headers@),
{
    match headers.get(CONTENT_TYPE) {
        Some(content_type) => text_eq(content_type.as_str(), DNS_MESSAGE),
        None => false,
    }
}

/// Whether the `Accept` header names the JSON media type. The name is found
/// whatever its case; the value must match to the letter.
pub fn has_dns_accept_type(headers: &Headers) -> (r: bool)
    ensures
        r == wants_dns_json(headers@),
{
    match headers.get(ACCEPT) {
        Some(accept) => text_eq(accept.as_str(), DNS_JSON),
        None => false,
    }
}

/// Whether what reading a URL's query gave holds a `dns` parameter. A URL
/// that did not parse, or that has no query, holds none.
pub fn parsed_has_dns_param(parsed: &Option<Option<String>>) -> (r: bool)
    ensures
        r == carries_dns_param(query_text(*parsed)),
{
    match parsed {
        Some(Some(query)) => query_has_key(query.as_str(), DNS_PARAM),
        _ => false,
    }
}

/// Whether the query of `url` holds a `dns` parameter. The value of the
/// parameter is not looked at, and a URL that does not parse holds none.
pub fn has_dns_params(url: &str) -> (r: bool)
    ensures
        r == carries_dns_param(url_query(url@)),
{
    let parsed = parse_query(url);
    parsed_has_dns_param(&parsed)
}

/// The mode of a request, given what reading its URL's query gave.
pub fn classify_parsed(method: Method, headers: &Headers, parsed: &Option<Option<String>>) -> (mode:
    Option<DohMode>)
    ensures
        mode == classify_spec(method, headers@, query_text(*parsed)),
{
    if method == Method::Post && has_dns_content_type(headers) {
        Some(DohMode::WireformatPost)
    } else if method == Method::Get && has_dns_accept_type(headers) {
        Some(DohMode::JsonGet)
    } else if method == Method::Get && parsed_has_dns_param(parsed) {
        Some(DohMode::WireformatGet)
    } else {
        None
    }
}

/// The mode of a request, or `None` where it uses none of the three. The
/// URL is parsed only where the method and the headers leave the question
/// open.
pub fn classify(method: Method, headers: &Headers, url: &str) -> (mode: Option<DohMode>)
    ensures
        mode == classify_spec(method, headers@, url_query(url@)),
{
    if method == Method::Post && has_dns_content_type(headers) {
        Some(DohMode::WireformatPost)
    } else if method == Method::Get && has_dns_accept_type(headers) {
        Some(DohMode::JsonGet)
    } else if method == Method::Get && has_dns_params(url) {
        Some(DohMode::WireformatGet)
    } else {
        None
    }
}

} // verus!
