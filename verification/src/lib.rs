//! A browser-side HTTP client for a single-page application front-end.
//!
//! The client builds authenticated REST requests, keeps a bearer token and a
//! decoded session identity in sync with a persistent key/value store, and
//! routes unauthorized responses into the owning application's message loop
//! to force a logout.  All request construction, response routing, credential
//! bookkeeping and session-token decoding is verified; the surrounding
//! runtime (the actual fetch, the actual browser storage) is the host
//! application's concern.

pub mod base64url;
pub mod client;
pub mod jwt;
pub mod query;
