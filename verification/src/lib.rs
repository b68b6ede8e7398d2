//! Span attributes and trace-context decisions for HTTP and gRPC servers.

pub mod headers;
pub mod lifecycle;
pub mod middleware;
pub mod request;
pub mod span;
pub mod text;
pub mod trace_context;
