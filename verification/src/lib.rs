//! Enrichment of the transactions of one block with token names, decoded
//! function signatures and display values.
//!
//! The library holds the decisions: which transactions are skipped and why,
//! which selector a call carries, which signatures it resolves to, and how the
//! block is reported. Everything that talks to a node is left to the caller,
//! who performs the actions that the state machines here ask for.

pub mod enrich;
pub mod hex;
pub mod outside;
pub mod report;
pub mod selector;
pub mod table;
pub mod types;
pub mod uint;
pub mod walk;
