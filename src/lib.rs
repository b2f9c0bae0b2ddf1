//! On-ledger logic of a peer-to-peer marketplace: listings, escrowed orders,
//! settlement into a write-once registry, over a model of the ledger's accounts.
pub mod error;
pub mod layout;
pub mod payload;
pub mod ledger;
pub mod address;
pub mod listing;
pub mod escrow;
pub mod settle;
pub mod holder;
pub mod dispatch;
pub mod laws;
