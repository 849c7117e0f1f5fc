//! Content checksums for HTTP request and response bodies.
//!
//! Bodies are modelled as pull-driven state machines: the caller hands each
//! wrapper what the layer beneath it produced and gets back what the wrapper
//! produces in turn. Checksums accumulate across pulls, are exposed as a
//! trailer, validated against an expected digest, or framed into the
//! `aws-chunked` wire encoding.
pub mod algorithm;
pub mod body;
pub mod checksum;
pub mod chunked;
pub mod decode;
pub mod digests;
pub mod error;
pub mod headers;
pub mod interceptor;
