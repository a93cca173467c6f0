//! Typed, verified wrappers around the value types and local decision logic of
//! SGX's quote-verification subsystem: enclave attribute bitmasks with named
//! flag rendering, quoting-enclave path and load-policy configuration requests,
//! and the total mapping from native status codes to a typed error domain.
//!
//! The process-global native setters themselves are unsafe foreign calls and
//! live outside this library; it computes exactly which call to make and
//! interprets the status the call returns.

pub mod attributes;
pub mod error;
pub mod quote_enclave;
