//! Queries: reading the state without changing it.

use vstd::prelude::*;
use crate::engine::{Env, State, StateView};
use crate::error::ContractError;
use crate::kyc::is_kyc_verified;
use crate::msg::{
    AuctionResponse,
    AuctionsResponse,
    BidResponse,
    ConfigResponse,
    ListAuctionsResponse,
    ListCompletedAuctionsResponse,
    QueryMsg,
    QueryResponse,
};
use crate::registry::entries_view;
use crate::state::{Auction, AuctionStatus, AuctionView, ConfigView};

verus! {

impl View for ConfigResponse {
    type V = ConfigView;

    open spec fn view(&self) -> ConfigView {
        ConfigView {
            admin: self.admin@,
            fee_bps: self.fee_bps,
            fee_address: self.fee_address@,
            token_denom: self.token_denom@,
            require_kyc: self.require_kyc,
        }
    }
}

/// A leading bid as a value: the bidder, if there is one, and the amount.
pub struct BidResponseView {
    pub bidder: Option<Seq<char>>,
    pub amount: u128,
}

impl View for BidResponse {
    type V = BidResponseView;

    open spec fn view(&self) -> BidResponseView {
        BidResponseView {
            bidder: match self.bidder {
                Some(b) => Some(b@),
                None => None,
            },
            amount: self.amount,
        }
    }
}

impl View for ListAuctionsResponse {
    type V = Seq<(u64, AuctionView)>;

    open spec fn view(&self) -> Seq<(u64, AuctionView)> {
        entries_view(self.auctions@)
    }
}

impl View for ListCompletedAuctionsResponse {
    type V = Seq<(u64, AuctionView)>;

    open spec fn view(&self) -> Seq<(u64, AuctionView)> {
        entries_view(self.auctions@)
    }
}

/// An answer as a value.
pub enum QueryResponseView {
    Config(ConfigView),
    Auction((u64, AuctionView)),
    HighBid(BidResponseView),
    Auctions(Seq<(u64, AuctionView)>),
    Verified(bool),
}

impl View for QueryResponse {
    type V = QueryResponseView;

    open spec fn view(&self) -> QueryResponseView {
        match self {
            QueryResponse::Config(c) => QueryResponseView::Config(c@),
            QueryResponse::Auction(a) => QueryResponseView::Auction(a@),
            QueryResponse::HighBid(b) => QueryResponseView::HighBid(b@),
            QueryResponse::Auctions(l) => QueryResponseView::Auctions(l@),
            QueryResponse::Verified(b) => QueryResponseView::Verified(*b),
        }
    }
}

/// The leading bid of `a`: nobody and zero while there is no bid.
pub open spec fn high_bid(a: AuctionView) -> BidResponseView {
    match a.highest_bid {
        Some(h) => BidResponseView { bidder: Some(h.bidder), amount: h.amount },
        None => BidResponseView { bidder: None, amount: 0 },
    }
}

/// Whether `address` passes the access check at `now` with no level asked for:
/// it is not barred and has a record that is marked verified and has not
/// run out.
pub open spec fn is_verified(s: StateView, address: Seq<char>, now: u64) -> bool {
    s.kyc.refusal(address, 0, now) is None
}

/// The answer to `msg` in the state `s` at time `now`.
pub open spec fn answer(s: StateView, now: u64, msg: QueryMsg) -> Result<
    QueryResponseView,
    ContractError,
> {
    match msg {
        QueryMsg::GetConfig {  } => Ok(QueryResponseView::Config(s.config)),
        QueryMsg::GetAuction { id } => if s.registry.contains(id) {
            Ok(QueryResponseView::Auction((id, s.registry.get(id))))
        } else {
            Err(ContractError::AuctionNotFound)
        },
        QueryMsg::GetHighBid { auction_id } => if s.registry.contains(auction_id) {
            Ok(QueryResponseView::HighBid(high_bid(s.registry.get(auction_id))))
        } else {
            Err(ContractError::AuctionNotFound)
        },
        QueryMsg::ListAuctions { start_after, limit, status } => Ok(
            QueryResponseView::Auctions(s.registry.page(start_after, limit, status)),
        ),
        QueryMsg::IsVerified { address } => Ok(
            QueryResponseView::Verified(is_verified(s, address@, now)),
        ),
    }
}

/// The view of a query's result.
pub open spec fn answer_view(r: Result<QueryResponse, ContractError>) -> Result<
    QueryResponseView,
    ContractError,
> {
    match r {
        Ok(a) => Ok(a@),
        Err(e) => Err(e),
    }
}

/// The configuration.
pub fn query_config(state: &State) -> (r: ConfigResponse)
    ensures
        r@ == state@.config,
{
    ConfigResponse {
        admin: state.config.admin.clone(),
        fee_bps: state.config.fee_bps,
        fee_address: state.config.fee_address.clone(),
        token_denom: state.config.token_denom.clone(),
        require_kyc: state.config.require_kyc,
    }
}

/// The auction registered under `id`, or `AuctionNotFound`.
pub fn query_auction(state: &State, id: u64) -> (r: Result<AuctionResponse, ContractError>)
    requires
        state.wf(),
    ensures
        match r {
            Ok(a) => state@.registry.contains(id) && a@ == (id, state@.registry.get(id)),
            Err(e) => !state@.registry.contains(id) && e == ContractError::AuctionNotFound,
        },
{
    match state.registry.load(id) {
        Ok(auction) => Ok(AuctionResponse { id, auction }),
        Err(e) => Err(e),
    }
}

/// The leading bid of the auction registered under `auction_id`, or
/// `AuctionNotFound`.
pub fn query_high_bid(state: &State, auction_id: u64) -> (r: Result<BidResponse, ContractError>)
    requires
        state.wf(),
    ensures
        match r {
            Ok(b) => state@.registry.contains(auction_id) && b@ == high_bid(
                state@.registry.get(auction_id),
            ),
            Err(e) => !state@.registry.contains(auction_id) && e
                == ContractError::AuctionNotFound,
        },
{
    match state.registry.load(auction_id) {
        Ok(auction) => match auction.highest_bid {
            Some(h) => Ok(BidResponse { bidder: Some(h.bidder), amount: h.amount }),
            None => Ok(BidResponse { bidder: None, amount: 0 }),
        },
        Err(e) => Err(e),
    }
}

/// One page of auctions in ascending order of id: those after `start_after`
/// that have the status `status`, at most `limit` of them and never more
/// than the largest page.
pub fn query_list_auctions(
    state: &State,
    start_after: Option<u64>,
    limit: Option<u32>,
    status: Option<AuctionStatus>,
) -> (r: ListAuctionsResponse)
    requires
        state.wf(),
    ensures
        r@ == state@.registry.page(start_after, limit, status),
{
    ListAuctionsResponse { auctions: state.registry.list(start_after, limit, status) }
}

/// One page of auctions of any status, without their ids.
pub fn list_auctions(state: &State, start_after: Option<u64>, limit: Option<u32>) -> (r:
    AuctionsResponse)
    requires
        state.wf(),
    ensures
        r.auctions@.map_values(|a: Auction| a@) == state@.registry.page(
            start_after,
            limit,
            None,
        ).map_values(|e: (u64, AuctionView)| e.1),
{
    let page = state.registry.list(start_after, limit, None);
    let ghost entries = entries_view(page@);
    let mut auctions: Vec<Auction> = Vec::new();
    let mut i: usize = 0;
    while i < page.len()
        invariant
            i <= page.len(),
            entries_view(page@) == entries,
            auctions.len() == i,
            forall|k: int| 0 <= k < i ==> (#[trigger] auctions@[k])@ == entries[k].1,
        decreases page.len() - i,
    {
        assert(entries[i as int] == page@[i as int]@);
        auctions.push(page[i].auction.clone());
        i = i + 1;
    }
    assert(auctions@.map_values(|a: Auction| a@) =~= entries.map_values(
        |e: (u64, AuctionView)| e.1,
    ));
    AuctionsResponse { auctions }
}

/// One page of the settled auctions.
pub fn query_completed_auctions(state: &State, start_after: Option<u64>, limit: Option<u32>) -> (r:
    ListCompletedAuctionsResponse)
    requires
        state.wf(),
    ensures
        r@ == state@.registry.page(start_after, limit, Some(AuctionStatus::Settled)),
{
    ListCompletedAuctionsResponse {
        auctions: state.registry.list(start_after, limit, Some(AuctionStatus::Settled)),
    }
}

/// Answers one query.
pub fn query(state: &State, env: &Env, msg: QueryMsg) -> (r: Result<QueryResponse, ContractError>)
    requires
        state.wf(),
    ensures
        answer_view(r) == answer(state@, env.time, msg),
{
    match msg {
        QueryMsg::GetConfig {  } => Ok(QueryResponse::Config(query_config(state))),
        QueryMsg::GetAuction { id } => match query_auction(state, id) {
            Ok(a) => Ok(QueryResponse::Auction(a)),
            Err(e) => Err(e),
        },
        QueryMsg::GetHighBid { auction_id } => match query_high_bid(state, auction_id) {
            Ok(b) => Ok(QueryResponse::HighBid(b)),
            Err(e) => Err(e),
        },
        QueryMsg::ListAuctions { start_after, limit, status } => Ok(
            QueryResponse::Auctions(query_list_auctions(state, start_after, limit, status)),
        ),
        QueryMsg::IsVerified { address } => {
            let verified = match is_kyc_verified(state, &address, 0, env.time) {
                Ok(b) => b,
                Err(_) => false,
            };
            Ok(QueryResponse::Verified(verified))
        },
    }
}

} // verus!
