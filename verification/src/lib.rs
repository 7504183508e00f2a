//! Provisioning of a token-holding account on a ledger: the instruction
//! sequence, the transaction around it and the order of the exchanges with
//! the network, as values that a caller submits.

pub mod address;
pub mod error;
pub mod instruction;
pub mod laws;
pub mod machine;
pub mod plan;
