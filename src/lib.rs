//! Token-holder governance: realms, governances, proposals, weighted voting and
//! deferred instruction execution, as a verified ledger state-transition system.

pub mod address;
pub mod error;
pub mod state;
pub mod proposal;
pub mod token_owner_record;
pub mod validation;
pub mod instruction;
pub mod processor;
