//! Receiving side of a cross-chain token bridge.
//!
//! The library accepts a relayer-submitted, externally signed payload
//! attesting that a user locked tokens on a foreign chain, verifies that
//! attestation against a trusted signer, enforces exactly-once processing
//! per user through a monotonic nonce, and selects how the corresponding
//! amount is released on the local chain: minted as new supply or moved out
//! of a custodial pool, depending on the token's registered configuration.

pub mod codec;
pub mod digest;
pub mod errors;
pub mod policy;
pub mod receive;
pub mod sig;
pub mod state;
