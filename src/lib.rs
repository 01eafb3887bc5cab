//! Ledger and exchange engine of a cross-currency payment platform.
//!
//! Every operation is a state transition on plain records: on failure the
//! records are left as they were, on success the new records are returned or
//! written in place. Moving the underlying tokens, reading the clock and
//! checking signatures belong to the host, which must discard the new state
//! when a token movement fails.
pub mod error;
pub mod state;
pub mod account;
pub mod transfer;
pub mod offline;
pub mod exchange;
