//! Token-usage extraction for streamed LLM API responses.
//!
//! A per-stream extractor buffers the response body chunk by chunk and, on the
//! final chunk, decodes the `usage` object of the JSON body and produces the
//! three counter increments that the host should apply.

pub mod json;
pub mod usage;
pub mod metrics;
pub mod extractor;
pub mod laws;
