//! A custodial ledger: one balance, an immutable record of every movement of
//! funds, and standing authorisations for recurring withdrawals.
//!
//! The ledger decides and keeps books; it reaches for nothing outside
//! itself but the wall clock. Whoever runs it tells it who calls and with
//! what, what the role authority answered, and what each transfer came to.
//!
//! - [`bank`] holds the state of the ledger and the steps that change it.
//! - [`operations`] holds what callers ask of the ledger, made of those steps.
//! - [`gate`], [`replay`], [`recorder`], [`registry`] and [`settlement`] are
//!   the parts: who may pass, which nonces are used up, which payments were
//!   written, which request debits stand where, and what a transfer came to.
//! - [`ob_io`] and [`host`] hold the records that go in and out.
//! - [`laws`] states what holds of the ledger whatever is asked of it.
pub mod bank;
pub mod clock;
pub mod digest;
pub mod error;
pub mod gate;
pub mod host;
pub mod laws;
pub mod ob_io;
pub mod operations;
pub mod recorder;
pub mod registry;
pub mod replay;
pub mod settlement;
pub mod status_index;
