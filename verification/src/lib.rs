//! The decisions of a forward proxy that stands between bots and the REST API
//! of Discord: it keeps the requests of each bot token within the rate limits of
//! the upstream and answers some of them from a short-lived cache.
//!
//! This library decides; it does not wait. It normalises and classifies request
//! paths, rewrites headers, keeps the cache and says, step by step, what is to be
//! done for a request. Listening, forwarding and waiting for rate-limit tickets
//! are left to the program that drives it.
//!
//! - [`path`]: the API prefix of a request path and the canonical route;
//! - [`route`]: methods, the classification of routes and their names;
//! - [`headers`]: the header fields that are stripped and rewritten;
//! - [`cache`]: the response cache, its two namespaces and its reaper;
//! - [`pipeline`]: the plan of a request and the state machine of its exchange
//!   with the upstream;
//! - [`error`]: the failures of the proxy and their responses;
//! - [`config`]: the settings and their defaults;
//! - [`text`]: helpers on strings and decimal numbers.

pub mod cache;
pub mod config;
pub mod error;
pub mod headers;
pub mod path;
pub mod pipeline;
pub mod route;
pub mod text;
