//! Reads a blockchain from its database and from the tree of blocks that are not stored yet.
//!
//! [`provider::BlockchainProvider`] is the entry point. It is generic over the database
//! ([`database::Database`]) and over the tree ([`traits::BlockchainTreeViewer`] and the traits
//! around it), and it answers the questions of [`traits`]. Its contracts say, for each question,
//! which calls of the database and of the tree the answer comes from and how it is put together
//! from what they returned. They hold whatever the database and the tree return.
//!
//! [`resolve`] and [`state`] hold the rules by which answers are put together, [`chain_info`] the
//! tracked heads of the chain, and [`laws`] what holds of the provider as a whole.

pub mod chain_info;
pub mod database;
pub mod error;
pub mod laws;
pub mod primitives;
pub mod provider;
pub mod resolve;
pub mod state;
pub mod traits;
