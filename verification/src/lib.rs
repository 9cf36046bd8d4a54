//! On-ledger logic for a two-party escrow.
//!
//! One party locks a quantity of a fungible asset under program custody,
//! expecting an exact counter-value in return; the counterparty supplies that
//! value and atomically receives the asset, or either party (under
//! role-specific rules) cancels and the locked asset is reclaimed. The host
//! execution environment invokes [`processor::Processor::process`] once per
//! submitted instruction and guarantees that all writes of one invocation
//! commit together or not at all, so the processor is a pure
//! validate-then-decide function: it reports the writes and transfers to
//! perform, and never performs them itself.

pub mod authority;
pub mod error;
pub mod identity;
pub mod instruction;
pub mod processor;
pub mod state;
