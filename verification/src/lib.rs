//! A verified model of a single on-ledger counter.
//!
//! One counter record lives at an address derived from a fixed seed and the
//! identity of the owning program. Three instructions act on it: `initialize`
//! creates it with a count of zero, `increment` and `decrement` move the count by
//! one with checked arithmetic. Every instruction either commits its whole
//! effect, together with one event, or leaves the ledger untouched.

pub mod counter;
pub mod history;
pub mod instructions;
pub mod ledger;
pub mod utils;
