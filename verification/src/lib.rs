//! Client library for the Shifter web-scraping HTTP API.
//!
//! A [`QueryBuilder`](builder::QueryBuilder) accumulates the query
//! parameters, headers and body fields of one upcoming request, and a
//! [`WebScrapingAPI`](client::WebScrapingAPI) client turns a populated
//! builder into a fully described outbound request: the target URL with the
//! API key and every parameter encoded into the query string, the validated
//! headers, and (for POST/PUT) the JSON-encoded body. Performing the network
//! round trip itself is left to the embedding application.

pub mod builder;
pub mod client;
pub mod errors;
pub mod headers;
pub mod json;
pub mod kv;

pub use builder::QueryBuilder;
pub use client::{HttpMethod, RequestPlan, WebScrapingAPI};
pub use errors::ApiError;
pub use kv::Dict;
