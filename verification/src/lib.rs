//! A small secure-exchange library: threat-intelligence records are protected
//! with authenticated encryption before transmission and opened, with
//! integrity checking, on receipt.
//!
//! The component owns a key derived once from caller-supplied key material;
//! `protect` seals a plaintext into a self-contained byte sequence (nonce,
//! ciphertext, tag), and `unseal` opens such a sequence, failing closed on
//! anything that was not produced under the same key.

pub mod cipher;
pub mod exchange;

pub use exchange::ExchangeError;
pub use exchange::ThreatExchange;
