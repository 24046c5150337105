//! A permissioned reputation registry.
//!
//! The registry stores a numeric score, a short grade label and free-form
//! metadata for each wallet identity, and restricts who may write those
//! records: the configured authority, or an agent the authority has
//! delegated. The host environment is expected to authenticate callers,
//! load the records an operation touches, hand them to the operation
//! functions in this crate, and persist whatever comes back; every access
//! decision and state transition is made, and verified, here.

pub mod access;
pub mod identity;
pub mod laws;
pub mod ops;
pub mod records;
