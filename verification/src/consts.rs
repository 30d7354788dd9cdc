//! The fixed texts of the protocol.

use vstd::prelude::*;

verus! {

/// The upstream resolver used unless a deployment names another.
pub const DOH: &'static str = "https://1.1.1.1/dns-query";

/// The media type of a DNS message in wire format.
pub const DNS_MESSAGE: &'static str = "application/dns-message";

/// The media type of a DNS answer in JSON.
pub const DNS_JSON: &'static str = "application/dns-json";

/// The header that names the media type a client wants.
pub const ACCEPT: &'static str = "Accept";

/// The header that names the media type of a body.
pub const CONTENT_TYPE: &'static str = "Content-Type";

/// The query parameter that carries a wire-format query in a GET.
pub const DNS_PARAM: &'static str = "dns";

/// The status of the answer to a request that matches no mode.
pub const NOT_FOUND_STATUS: u16 = 404;

/// The body of the answer to a request that matches no mode.
pub const NOT_FOUND_BODY: &'static str = "Not Found";

} // verus!
