//! A quorum-based approval engine for pooled-fund transfers.
//!
//! A fixed roster of signers governs proposed transfers: a proposal is
//! created by one signer, collects approvals and rejections from the
//! others, and may be executed only once the quorum snapshotted at its
//! creation has been reached. The engine decides every transition itself;
//! the surrounding host supplies the clock, the caller-authorization
//! verdict, the asset transfer, and durable storage for the engine value.

pub mod engine;
pub mod laws;
pub mod model;
pub mod types;
pub mod verification;
