//! The values that pass through the gateway, and what each is to the
//! contracts.

use crate::headers::{HeaderView, Headers};
use vstd::prelude::*;

verus! {

/// An HTTP request method.
#[derive(Clone, Copy, Debug, PartialEq, Eq, Structural)]
pub enum Method {
    Head,
    Get,
    Post,
    Put,
    Patch,
    Delete,
    Options,
    Connect,
    Trace,
    Report,
}

/// The way in which a request carries its DNS query.
#[derive(Clone, Copy, Debug, PartialEq, Eq, Structural)]
pub enum DohMode {
    /// POST with the query in wire format as the body.
    WireformatPost,
    /// GET that asks for a JSON answer.
    JsonGet,
    /// GET with the query in wire format in the `dns` parameter.
    WireformatGet,
}

/// Why a request could not be answered.
#[derive(Clone, Copy, Debug, PartialEq, Eq, Structural)]
pub enum GatewayError {
    /// The upstream URL could not be built.
    MalformedUrl,
    /// The call to the upstream resolver failed.
    Transport,
    /// A header value of the upstream answer is not valid header text.
    HeaderEncoding,
}

/// A failed call to the upstream resolver, with what the transport said.
#[derive(Debug, PartialEq, Eq)]
pub struct TransportError {
    pub message: String,
}

/// A request as it reaches the gateway. The body is read only for a POST
/// and is empty otherwise.
#[derive(Debug, PartialEq, Eq)]
pub struct InboundRequest {
    pub method: Method,
    pub headers: Headers,
    pub url: String,
    pub body: Vec<u8>,
}

#[verifier::ext_equal]
pub struct InboundRequestView {
    pub method: Method,
    pub headers: Seq<HeaderView>,
    pub url: Seq<char>,
    pub body: Seq<u8>,
}

impl View for InboundRequest {
    type V = InboundRequestView;

    open spec fn view(&self) -> InboundRequestView {
        InboundRequestView {
            method: self.method,
            headers: self.headers@,
            url: self.url@,
            body: self.body@,
        }
    }
}

/// The request that goes to the upstream resolver.
#[derive(Debug, PartialEq, Eq)]
pub struct UpstreamRequest {
    pub url: String,
    pub method: Method,
    pub headers: Headers,
    pub body: Option<Vec<u8>>,
}

#[verifier::ext_equal]
pub struct UpstreamRequestView {
    pub url: Seq<char>,
    pub method: Method,
    pub headers: Seq<HeaderView>,
    pub body: Option<Seq<u8>>,
}

/// The bytes of an optional body.
pub open spec fn bytes_of(body: Option<Vec<u8>>) -> Option<Seq<u8>> {
    match body {
        Some(b) => Some(b@),
        None => None,
    }
}

impl View for UpstreamRequest {
    type V = UpstreamRequestView;

    open spec fn view(&self) -> UpstreamRequestView {
        UpstreamRequestView {
            url: self.url@,
            method: self.method,
            headers: self.headers@,
            body: bytes_of(self.body),
        }
    }
}

/// What an HTTP response is to the contracts, upstream or outbound.
#[verifier::ext_equal]
pub struct ResponseView {
    pub status: u16,
    pub headers: Seq<HeaderView>,
    pub body: Seq<u8>,
}

/// The answer of the upstream resolver.
#[derive(Debug, PartialEq, Eq)]
pub struct UpstreamResponse {
    pub status: u16,
    pub headers: Headers,
    pub body: Vec<u8>,
}

impl View for UpstreamResponse {
    type V = ResponseView;

    open spec fn view(&self) -> ResponseView {
        ResponseView { status: self.status, headers: self.headers@, body: self.body@ }
    }
}

/// The answer that goes back to the caller.
#[derive(Debug, PartialEq, Eq)]
pub struct OutboundResponse {
    pub status: u16,
    pub headers: Headers,
    pub body: Vec<u8>,
}

impl View for OutboundResponse {
    type V = ResponseView;

    open spec fn view(&self) -> ResponseView {
        ResponseView { status: self.status, headers: self.headers@, body: self.body@ }
    }
}

/// What the gateway decides to do with a request.
#[derive(Debug, PartialEq, Eq)]
pub enum Action {
    /// Send this request upstream and relay the answer.
    Forward(UpstreamRequest),
    /// Answer at once, without any upstream call.
    Respond(OutboundResponse),
    /// Give up on the request.
    Fail(GatewayError),
}

#[verifier::ext_equal]
pub enum ActionView {
    Forward(UpstreamRequestView),
    Respond(ResponseView),
    Fail(GatewayError),
}

impl View for Action {
    type V = ActionView;

    open spec fn view(&self) -> ActionView {
        match self {
            Action::Forward(request) => ActionView::Forward(request@),
            Action::Respond(response) => ActionView::Respond(response@),
            Action::Fail(error) => ActionView::Fail(*error),
        }
    }
}

} // verus!
