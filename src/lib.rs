//! Client-side logic for a vault whose token custody is held by a
//! program-derived authority: seed derivation, authority validation and the
//! assembly of relay and administrative instructions.

pub mod address;
pub mod client;
pub mod custody;
pub mod derivation;
pub mod error;
pub mod instruction;
pub mod invocation;
pub mod token;

pub use address::Address;
pub use error::ClientError;
