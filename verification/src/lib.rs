//! Escrowed-auction settlement engine.
//!
//! A seller lists an item, bidders place bids that carry their value with
//! them, or someone buys at the buy-now price, and settlement splits the
//! winning bid between the fee recipient and the seller. The engine is a
//! state machine over plain values: every command takes the state, the
//! clock and the sender and hands back the new state together with the
//! transfers that the host must carry out, or a typed refusal.
//!
//! Each command is stated twice: as a function of the state in
//! specification code, and as an executable function that is proved to
//! compute exactly that function. What holds of every command and of every
//! state the engine can reach is proved in [`theorems`].
//!
//! - [`state`], [`msg`], [`response`], [`error`]: the data.
//! - [`engine`]: the state as one value, the clock and the sender.
//! - [`registry`]: the auctions by id, and paged listings.
//! - [`kyc`]: identity verification and the blacklist.
//! - [`bidding`], [`buy_now`], [`settlement`]: the auction's life.
//! - [`fees`]: the fee split.
//! - [`contract`], [`query`]: set-up, dispatch and queries.
//! - [`text`]: numbers in event attributes.

pub mod bidding;
pub mod buy_now;
pub mod contract;
pub mod engine;
pub mod error;
pub mod fees;
pub mod kyc;
pub mod msg;
pub mod query;
pub mod registry;
pub mod response;
pub mod settlement;
pub mod state;
pub mod text;
pub mod theorems;
