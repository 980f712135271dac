//! Verified core of a hot-path limit-order client for a single order-book
//! exchange: order construction, validation, amount encoding, typed-data
//! signing inputs, and the credential-bootstrap decision logic. The
//! unverified edge (network transport, wall clock, raw cryptography) lives
//! outside this crate and talks to it in plain values.

pub mod bootstrap;
pub mod client;
pub mod codec;
pub mod config;
pub mod crypto;
pub mod decimal;
pub mod error;
pub mod order;
pub mod policy;
pub mod types;
pub mod wrappers;
