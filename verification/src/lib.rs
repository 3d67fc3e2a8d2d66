//! A single-port protocol multiplexer.
//!
//! One inbound request stream is split between two independently built
//! backend handlers. Each request is classified from its metadata alone,
//! forwarded unchanged to the selected backend, and the backend's response
//! comes back wrapped in a single envelope type, so callers see one uniform
//! interface whichever backend served the request.

pub mod classify;
pub mod demo;
pub mod envelope;
pub mod handler;
pub mod multiplex;
pub mod request;
pub mod response;
pub mod stub;
