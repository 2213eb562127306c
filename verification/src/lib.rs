//! Core of an account-abstraction bundler: chain-scoped configuration
//! resolution and lossless, validated translation of operation records into
//! the parameter shape required by a per-chain entrypoint contract.

pub mod address;
pub mod codec;
pub mod dispatcher;
pub mod errors;
pub mod metadata;
pub mod registry;
pub mod request;
pub mod uint256;
