//! Decision logic of a cross-chain swap entry point and of its Oraidex swap adapter.
//!
//! Every function here computes on plain values: the results of chain queries, address
//! checks and storage reads are handed in, and what the contract would do comes back as a
//! plan of messages and attributes.
pub mod decimal;
pub mod split;
pub mod error;
pub mod asset;
pub mod swap;
pub mod action;
pub mod response;
pub mod chain;
pub mod oraidex;
pub mod admin;
pub mod user_swap;
pub mod post_swap;
pub mod swap_and_action;
pub mod universal;
pub mod laws;
