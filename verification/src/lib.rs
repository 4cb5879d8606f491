//! The CloudFormation custom-resource callback protocol: detection of the
//! lifecycle phase of a raw event, strongly typed parsing of the
//! phase-specific envelope, dispatch to a pluggable provider, deterministic
//! derivation of the default physical resource id, response construction
//! from a failure-safe default, and serialization of the response to the
//! exact wire form the caller's control loop consumes. Delivery of the
//! serialized response — an HTTP PUT to the event's callback URL — is left
//! to the embedding host.
pub mod error;
pub mod events;
pub mod handler;
pub mod json;
pub mod physical_id;
pub mod raw;
pub mod response;
pub mod types;
