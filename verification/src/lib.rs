//! Core client library for a terminal dashboard over a multi-tenant REST
//! platform: it turns a long-lived RSA signing key into short-lived bearer
//! tokens (a JWT client assertion traded through an OAuth2
//! client-credentials exchange), caches those tokens with a safety margin,
//! and builds and decodes the typed resource requests that the surrounding
//! UI issues.
//!
//! Network and file access stay outside the crate: callers read the key
//! file, send the built requests, and hand the raw responses back in.

pub mod client;
pub mod configuration;
pub mod json;
pub mod key;
pub mod models;
pub mod tui;
pub mod util;
