//! Shared building blocks: addresses, constants, the counter record, errors and events.

pub mod address;
pub mod constants;
pub mod errors;
pub mod events;
pub mod state;
