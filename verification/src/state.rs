//! The persisted data model: configuration, auctions and bids, each with the
//! mathematical view that the contracts speak of.

use vstd::prelude::*;

verus! {

/// Largest fee rate, in basis points (100 %).
pub const MAX_FEE_BPS: u64 = 10000;

/// Contract-wide settings, fixed at instantiation.
#[derive(Debug, PartialEq, Eq)]
pub struct Config {
    pub admin: String,
    /// Fee rate in basis points: 110 is 1.10 %.
    pub fee_bps: u64,
    /// Receives the fee at settlement.
    pub fee_address: String,
    /// Denomination in which bids are paid and funds are sent out.
    pub token_denom: String,
    pub require_kyc: bool,
}

/// The settings as values.
pub struct ConfigView {
    pub admin: Seq<char>,
    pub fee_bps: u64,
    pub fee_address: Seq<char>,
    pub token_denom: Seq<char>,
    pub require_kyc: bool,
}

impl View for Config {
    type V = ConfigView;

    open spec fn view(&self) -> ConfigView {
        ConfigView {
            admin: self.admin@,
            fee_bps: self.fee_bps,
            fee_address: self.fee_address@,
            token_denom: self.token_denom@,
            require_kyc: self.require_kyc,
        }
    }
}

impl ConfigView {
    /// The fee rate never exceeds 100 %.
    pub open spec fn wf(self) -> bool {
        self.fee_bps <= MAX_FEE_BPS
    }
}

impl Config {
    /// Checks the configuration's invariant.
    pub fn is_well_formed(&self) -> (b: bool)
        ensures
            b == self@.wf(),
    {
        self.fee_bps <= MAX_FEE_BPS
    }
}

impl Clone for Config {
    fn clone(&self) -> (r: Config)
        ensures
            r@ == self@,
    {
        Config {
            admin: self.admin.clone(),
            fee_bps: self.fee_bps,
            fee_address: self.fee_address.clone(),
            token_denom: self.token_denom.clone(),
            require_kyc: self.require_kyc,
        }
    }
}

/// Lifecycle of an auction. `Active` is the only state that accepts bids.
#[derive(Clone, Copy, Debug, PartialEq, Eq, Structural)]
pub enum AuctionStatus {
    Active,
    Ended,
    Sold,
    Cancelled,
    Settled,
}

/// One accepted bid. Never changed once recorded.
#[derive(Debug, PartialEq, Eq)]
pub struct Bid {
    pub bidder: String,
    pub amount: u128,
    pub timestamp: u64,
}

/// A bid as a value.
pub struct BidView {
    pub bidder: Seq<char>,
    pub amount: u128,
    pub timestamp: u64,
}

impl View for Bid {
    type V = BidView;

    open spec fn view(&self) -> BidView {
        BidView { bidder: self.bidder@, amount: self.amount, timestamp: self.timestamp }
    }
}

impl Clone for Bid {
    fn clone(&self) -> (r: Bid)
        ensures
            r@ == self@,
    {
        Bid { bidder: self.bidder.clone(), amount: self.amount, timestamp: self.timestamp }
    }
}

/// The views of a run of bids, in order.
pub open spec fn bids_view(bids: Seq<Bid>) -> Seq<BidView> {
    bids.map_values(|b: Bid| b@)
}

/// The view of an optional bid.
pub open spec fn opt_bid_view(bid: Option<Bid>) -> Option<BidView> {
    match bid {
        Some(b) => Some(b@),
        None => None,
    }
}

/// One listing.
#[derive(Debug, PartialEq, Eq)]
pub struct Auction {
    pub seller: String,
    pub item_id: String,
    pub description: String,
    /// Smallest acceptable first bid.
    pub starting_price: u128,
    /// Smallest winning bid for which the sale goes through.
    pub reserve_price: Option<u128>,
    pub buy_now_price: Option<u128>,
    pub end_time: u64,
    /// Every accepted bid, oldest first.
    pub bids: Vec<Bid>,
    pub highest_bid: Option<Bid>,
    pub status: AuctionStatus,
    pub created_at: u64,
}

/// An auction as a value: what the contracts of the commands speak of.
pub struct AuctionView {
    pub seller: Seq<char>,
    pub item_id: Seq<char>,
    pub description: Seq<char>,
    pub starting_price: u128,
    pub reserve_price: Option<u128>,
    pub buy_now_price: Option<u128>,
    pub end_time: u64,
    pub bids: Seq<BidView>,
    pub highest_bid: Option<BidView>,
    pub status: AuctionStatus,
    pub created_at: u64,
}

impl View for Auction {
    type V = AuctionView;

    open spec fn view(&self) -> AuctionView {
        AuctionView {
            seller: self.seller@,
            item_id: self.item_id@,
            description: self.description@,
            starting_price: self.starting_price,
            reserve_price: self.reserve_price,
            buy_now_price: self.buy_now_price,
            end_time: self.end_time,
            bids: bids_view(self.bids@),
            highest_bid: opt_bid_view(self.highest_bid),
            status: self.status,
            created_at: self.created_at,
        }
    }
}

impl AuctionView {
    /// The highest bid is the bid recorded last, and there is one exactly
    /// when a bid was recorded.
    pub open spec fn wf(self) -> bool {
        match self.highest_bid {
            Some(b) => self.bids.len() > 0 && self.bids.last() == b,
            None => self.bids.len() == 0,
        }
    }

    /// The auction with its status set to `status`.
    pub open spec fn with_status(self, status: AuctionStatus) -> AuctionView {
        AuctionView { status, ..self }
    }

    /// The auction with `bid` recorded as the newest and highest bid.
    pub open spec fn with_bid(self, bid: BidView) -> AuctionView {
        AuctionView { bids: self.bids.push(bid), highest_bid: Some(bid), ..self }
    }

    /// Each recorded bid is larger than the one before it.
    pub open spec fn bids_increasing(self) -> bool {
        forall|i: int, j: int|
            0 <= i < j < self.bids.len() ==> (#[trigger] self.bids[i]).amount < (
            #[trigger] self.bids[j]).amount
    }
}

impl Bid {
    /// Whether two bids are the same bid.
    pub fn same_as(&self, other: &Bid) -> (b: bool)
        ensures
            b == (self@ == other@),
    {
        let same = self.bidder == other.bidder && self.amount == other.amount && self.timestamp
            == other.timestamp;
        assert(same == (self@ == other@)) by {
            if self@ == other@ {
                assert(self.bidder@ == other.bidder@);
            }
        }
        same
    }
}

impl Auction {
    /// Checks the auction's invariant.
    pub fn is_well_formed(&self) -> (b: bool)
        ensures
            b == self@.wf(),
    {
        match &self.highest_bid {
            Some(h) => {
                if self.bids.len() == 0 {
                    false
                } else {
                    let last = &self.bids[self.bids.len() - 1];
                    assert(self@.bids.last() == last@);
                    last.same_as(h)
                }
            },
            None => self.bids.len() == 0,
        }
    }
}

/// Copies a run of bids.
pub fn clone_bids(bids: &Vec<Bid>) -> (r: Vec<Bid>)
    ensures
        bids_view(r@) == bids_view(bids@),
{
    let mut out: Vec<Bid> = Vec::new();
    let mut i: usize = 0;
    while i < bids.len()
        invariant
            i <= bids.len(),
            out.len() == i,
            forall|k: int| 0 <= k < i ==> out@[k]@ == bids@[k]@,
        decreases bids.len() - i,
    {
        out.push(bids[i].clone());
        i = i + 1;
    }
    assert(bids_view(out@) =~= bids_view(bids@));
    out
}

impl Clone for Auction {
    fn clone(&self) -> (r: Auction)
        ensures
            r@ == self@,
    {
        let highest_bid = match &self.highest_bid {
            Some(b) => Some(b.clone()),
            None => None,
        };
        Auction {
            seller: self.seller.clone(),
            item_id: self.item_id.clone(),
            description: self.description.clone(),
            starting_price: self.starting_price,
            reserve_price: self.reserve_price,
            buy_now_price: self.buy_now_price,
            end_time: self.end_time,
            bids: clone_bids(&self.bids),
            highest_bid,
            status: self.status,
            created_at: self.created_at,
        }
    }
}

} // verus!
