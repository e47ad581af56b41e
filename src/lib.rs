//! Propagation of W3C trace context across an RPC boundary.
//!
//! `codec` turns a trace context into a `traceparent` header value and back,
//! `headers` models an HTTP header map, and `propagation` holds the decisions
//! that the client and server interceptors make on each call.

pub mod codec;
pub mod headers;
pub mod propagation;
