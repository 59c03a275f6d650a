//! Commands, queries and the answers to queries.

use vstd::prelude::*;
use crate::state::{Auction, AuctionStatus, AuctionView};

verus! {

/// Settings given when the contract is set up.
#[derive(Clone, Debug, PartialEq, Eq)]
pub struct InstantiateMsg {
    pub admin: String,
    /// Fee rate in basis points, at most 10000.
    pub fee_bps: u64,
    /// Receives the fee at settlement.
    pub fee_address: String,
    pub token_denom: String,
    /// Whether bidders, buyers and sellers must pass the access gate.
    /// Absent means no.
    pub require_kyc: Option<bool>,
    /// The id that the first auction gets.
    pub first_auction_id: u64,
}

/// The commands that change state.
#[derive(Clone, Debug, PartialEq, Eq)]
pub enum ExecuteMsg {
    CreateAuction {
        item_id: String,
        description: String,
        starting_price: u128,
        reserve_price: Option<u128>,
        buy_now_price: Option<u128>,
        /// Seconds from now until the auction ends.
        duration: u64,
    },
    PlaceBid { auction_id: u64, amount: u128 },
    BuyNow { auction_id: u64 },
    CloseAuction { auction_id: u64 },
    ReleaseFunds { auction_id: u64 },
    VerifyUser { address: String, level: u8, expires_in_days: Option<u64> },
    RevokeVerification { address: String },
    Blacklist { address: String },
}

/// The questions that leave state alone.
#[derive(Clone, Debug, PartialEq, Eq)]
pub enum QueryMsg {
    GetConfig {  },
    GetAuction { id: u64 },
    GetHighBid { auction_id: u64 },
    ListAuctions { start_after: Option<u64>, limit: Option<u32>, status: Option<AuctionStatus> },
    IsVerified { address: String },
}

/// The configuration, as a query reports it.
#[derive(Clone, Debug, PartialEq, Eq)]
pub struct ConfigResponse {
    pub admin: String,
    pub fee_bps: u64,
    pub fee_address: String,
    pub token_denom: String,
    pub require_kyc: bool,
}

/// An auction together with the id it is registered under.
#[derive(Clone, Debug, PartialEq, Eq)]
pub struct AuctionResponse {
    pub id: u64,
    pub auction: Auction,
}

impl View for AuctionResponse {
    type V = (u64, AuctionView);

    open spec fn view(&self) -> (u64, AuctionView) {
        (self.id, self.auction@)
    }
}

/// One page of auctions, in ascending order of id.
#[derive(Clone, Debug, PartialEq, Eq)]
pub struct ListAuctionsResponse {
    pub auctions: Vec<AuctionResponse>,
}

/// One page of auctions without their ids, in ascending order of id.
#[derive(Clone, Debug, PartialEq, Eq)]
pub struct AuctionsResponse {
    pub auctions: Vec<Auction>,
}

/// One page of settled auctions, in ascending order of id.
#[derive(Clone, Debug, PartialEq, Eq)]
pub struct ListCompletedAuctionsResponse {
    pub auctions: Vec<AuctionResponse>,
}

/// The leading bid of an auction: nobody and zero while there is none.
#[derive(Clone, Debug, PartialEq, Eq)]
pub struct BidResponse {
    pub bidder: Option<String>,
    pub amount: u128,
}

/// The answer to a query, one variant for each kind of question.
#[derive(Clone, Debug, PartialEq, Eq)]
pub enum QueryResponse {
    Config(ConfigResponse),
    Auction(AuctionResponse),
    HighBid(BidResponse),
    Auctions(ListAuctionsResponse),
    Verified(bool),
}

} // verus!
