//! Cross-language execution bridge for a key-value-store client.
//!
//! The library exposes a callback-driven protocol: a foreign caller creates a
//! client handle, dispatches commands against it, and receives each outcome
//! through exactly one success or failure callback invocation. The store
//! itself is an external collaborator; what is verified here is the protocol
//! around it: handle and response-node lifecycles, command construction with
//! argument order preserved, fault containment, and the callback contract.

pub mod callback;
pub mod containment;
pub mod create;
pub mod dispatch;
pub mod errors;
pub mod handles;
pub mod level;
pub mod responses;
pub mod store;
