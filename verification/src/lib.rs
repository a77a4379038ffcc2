//! Access-token acquisition and caching for the DingTalk open platform.
//!
//! The crate decides, for an application or a tenant, whether a cached token
//! can be used and, when none can, which exchange has to be made and what has
//! to be written back to the credential store. Network and store I/O are left
//! to the caller: the decisions are plain functions over plain values.

pub mod cache;
pub mod client;
pub mod contact;
pub mod credential;
pub mod decimal;
pub mod error;
pub mod issuer;
pub mod keys;
pub mod manager;
pub mod organization;
pub mod redirect;
pub mod request;
pub mod store;
