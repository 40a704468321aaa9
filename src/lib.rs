//! Identity translation between a service mesh's subject IDs and an OIDC
//! provider's bearer tokens.
//!
//! The library decides; its caller performs the HTTP calls. Each flow hands
//! out the exact request to send and takes back the reply, so every decision
//! (when a cached machine token may be used, what a reply means, which outcome
//! a request gets) is a verified function of plain values.
pub mod error;
pub mod http;
pub mod discovery;
pub mod cache;
pub mod provider;
pub mod headers;
pub mod bearer;
pub mod translator;
