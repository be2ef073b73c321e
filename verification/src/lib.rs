//! A score book kept in contract storage: one owner, an aggregate score for
//! every address, and a score for every pair of an address and a token.
//! Only the owner may assign scores; anyone may read them.
//!
//! The handlers in [`contract`] work on a `cosmwasm_std::MemoryStorage`
//! through `cw-storage-plus`. Their contracts are stated over
//! [`state::Ledger`], the mathematical picture of what the storage holds,
//! and the theorems in [`history`] are proved of the same picture.
//!
//! What a handler decides between its reads and its writes stands in
//! functions of its own ([`contract::authorize`], [`contract::aggregate_after`]),
//! so that a host with a storage of another kind can keep to the same rules.

pub mod contract;
pub mod error;
pub mod history;
pub mod msg;
pub mod response;
pub mod state;
