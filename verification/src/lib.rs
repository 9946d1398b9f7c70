//! The ownership, permission and transfer rules of a registry of non-fungible
//! tokens, with their proofs.
//!
//! The registry keeps, for every token, its owner and the grants on it; for
//! every owner, the inventory of the owner's tokens, the grants on all of them,
//! and the lists of tokens on which single addresses were authorised; and a log
//! of the transactions. A request either goes through as a whole or fails and
//! changes nothing.
//!
//! * [`table`] holds the keyed tables that every sub-store is made of, and
//!   [`state`] the ledger that is made of them.
//! * [`permission`] decides whether a requester may act on a token, and
//!   [`approval`] grants and revokes.
//! * [`contract`], [`send`] and [`mint`] transfer, send and list tokens;
//!   [`handle`] instantiates the registry and dispatches the requests that change
//!   it.
//! * [`query`] and [`listing`] answer questions about it.
//! * [`laws`], [`authlists`] and [`paging`] state what holds of every state and
//!   of every sequence of requests.
//!
//! The contract of each operation says what the operation does in terms of the
//! views of its arguments: the function named like the operation, with `_spec`
//! behind the name, gives the result and the state after it.

pub mod address;
pub mod approval;
pub mod authlists;
pub mod contract;
pub mod crypto;
pub mod error;
pub mod expiration;
pub mod handle;
pub mod inventory;
pub mod laws;
pub mod listing;
pub mod mint;
pub mod msg;
pub mod paging;
pub mod permission;
pub mod query;
pub mod query_msg;
pub mod receiver;
pub mod send;
pub mod state;
pub mod table;
pub mod token;
pub mod viewing_key;
