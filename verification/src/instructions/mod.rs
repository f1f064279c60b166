//! The three instructions, each with the accounts it takes and its handler.

pub mod decrement;
pub mod increment;
pub mod initialize;

pub use decrement::DecrementAccounts;
pub use increment::IncrementAccounts;
pub use initialize::InitializeAccounts;
