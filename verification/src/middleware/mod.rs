//! Middleware for request pipelines.

pub mod trace_extractor;
