use vstd::prelude::*;

verus! {

/// The metadata of one inbound request, as far as the multiplexer reads it:
/// a transport framing version indicator and the declared content type,
/// which together decide the route, plus the request line items that only
/// the backend handlers interpret.
pub struct RequestMeta {
    /// Transport framing version indicator: 1 for the classic
    /// request/response framing, 2 for the multiplexed framing.
    pub version: u8,
    /// Raw bytes of the declared content-type header; empty when the
    /// request carries none.
    pub content_type: Vec<u8>,
    /// Request path, read only by the backend handlers.
    pub path: String,
    /// Request method, read only by the backend handlers.
    pub method: String,
}

/// One inbound request: metadata plus an opaque body. The multiplexer reads
/// only the metadata and forwards the whole request unchanged.
pub struct Request {
    pub meta: RequestMeta,
    pub body: Vec<u8>,
}

} // verus!
