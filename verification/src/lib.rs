//! Core of a command-line harness that validates blockchain account
//! signatures against an off-chain verification engine.
//!
//! - `encoding`: hex, base64, base58 and Monero's base58 by name, with
//!   `hexadecimal` for what hex text is.
//! - `fingerprint`: the twenty-byte fingerprint of the account at an address.
//! - `unit`: what the engine is asked to evaluate.
//! - `solana`, `chain`: the operations `parse`, `generate` and `verify` of the
//!   supported chains, over the `arguments` of an invocation.
//! - `error`: the failures, and how they are told to the user.
//! - `trusted`: the calls into other crates.
//!
//! The engine is not part of the library. An operation that needs it comes
//! in two halves: the first builds the unit for the engine, the second turns
//! the engine's answer into the outcome.

pub mod arguments;
pub mod chain;
pub mod encoding;
pub mod error;
pub mod fingerprint;
pub mod hexadecimal;
pub mod solana;
pub mod trusted;
pub mod unit;
