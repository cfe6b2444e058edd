//! A single-purpose invocation handler that deletes one record from a
//! key-value table store.
//!
//! The handler decodes a layered configuration object and a caller-supplied
//! key payload, confirms that a store-client capability is present, and only
//! then hands a fully validated delete request to the runtime adapter that
//! talks to the store. Every decoding and gating decision lives here, stated
//! in contracts; the network call itself is the adapter's job.

pub mod config;
pub mod handler;
pub mod json;
pub mod laws;
pub mod payload;
