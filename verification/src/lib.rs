//! A configurable mock HTTP responder core.
//!
//! Two response strategies are modelled here: a rotating sequence of HTTP
//! status codes driven by a fetch-and-increment counter, and a fixed payload
//! returned verbatim. Configuration validation (status-code range, payload
//! source selection, wait-duration parsing) happens once, before any request
//! is served, so the request path itself is error-free by construction.
//! Listening, dispatching and sleeping are left to an unverified shell around
//! this crate; every decision that shell takes is computed by a verified
//! function in here.

pub mod config;
pub mod payload;
pub mod response;
pub mod status;
