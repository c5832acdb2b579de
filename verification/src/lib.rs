//! Escrow ledger for a two-outcome wagering market.
//!
//! The library is organised leaf-first:
//! - [`errors`]: the tagged errors every handler can return.
//! - [`model`]: the data model (market, wager, outcome, storage record)
//!   and its mathematical views.
//! - [`codec`]: the fixed binary encoding of market and wager records,
//!   with a proved round-trip law.
//! - [`guard`]: the custody-guard predicates run before any mutation.
//! - [`engine`]: the market lifecycle handlers, each a guarded state
//!   transition ending in one atomic write-back.
//! - [`router`]: opcode dispatch over raw request bytes.

pub mod codec;
pub mod engine;
pub mod errors;
pub mod guard;
pub mod laws;
pub mod model;
pub mod router;
