//! Client-side core of an on-chain name-to-URI registry.
//!
//! The crate models the full transaction lifecycle of a registry client:
//! decoding the signing key, assembling and sequencing the on-chain calls
//! (including the register-if-absent gate), encoding call arguments in the
//! chain's canonical binary form, and deciding every protocol transition.
//! Network transport and signing are left to the surrounding application,
//! which drives [`protocol::Session`] by feeding it the outcome of each
//! network round trip.

pub mod account;
pub mod codec;
pub mod errors;
pub mod laws;
pub mod protocol;
pub mod txn;

pub use errors::RegistryError;
