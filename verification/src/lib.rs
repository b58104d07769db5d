//! Ledger core for a numbered-ticket lottery with ERC-721-like ownership.
//!
//! The crate models the lottery's single persisted record ([`state::State`]),
//! the operations that mutate it (creation, authorization-gated transfer,
//! open ticket purchase, one-shot settlement) and the read-only queries,
//! together with proofs of the ledger's laws.  The host environment that
//! resolves addresses, persists the record and delivers funds sits outside
//! this crate and hands every operation plain values.

pub mod addr;
pub mod errors;
pub mod laws;
pub mod contract;
pub mod msg;
pub mod state;
