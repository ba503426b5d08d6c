//! Transaction, metadata and meta-contract bookkeeping of a node service:
//! request validation, contract binding, metadata updates, metadata history
//! walks and the result records handed back to callers.

pub mod defaults;
pub mod error;
pub mod records;
pub mod result;
pub mod send;
pub mod binding;
pub mod metadata_update;
pub mod history;
