//! Bidding: which bids are accepted, what an accepted bid changes and whom
//! it pays back.

use vstd::prelude::*;
use crate::engine::{Env, MessageInfo, Outcome, State, StateView, result_view};
use crate::error::ContractError;
use crate::response::{Response, ResponseView, TransferView, spec_tendered, tendered};
use crate::state::{Auction, AuctionStatus, AuctionView, Bid, BidView};
use crate::text::{decimal, u128_to_decimal, u64_to_decimal};

verus! {

/// The smallest amount that the next bid on `a` may have: the starting
/// price, and one more than the highest bid once there is one.
pub open spec fn min_acceptable_bid(a: AuctionView) -> int {
    match a.highest_bid {
        Some(h) => if a.starting_price > h.amount + 1 {
            a.starting_price as int
        } else {
            h.amount + 1
        },
        None => a.starting_price as int,
    }
}

/// Whether a bid of `amount` on `a` is high enough. A bid of zero never is.
pub open spec fn bid_acceptable(a: AuctionView, amount: u128) -> bool {
    amount > 0 && amount >= min_acceptable_bid(a)
}

/// The refund owed when `new_bidder` takes the lead from `prev`: the whole of
/// the previous highest bid goes back to its bidder, unless that bidder is
/// `new_bidder`.
pub open spec fn refund_of(prev: Option<BidView>, new_bidder: Seq<char>, denom: Seq<char>) -> Seq<
    TransferView,
> {
    match prev {
        Some(p) => if p.bidder != new_bidder {
            seq![TransferView { to_address: p.bidder, amount: p.amount, denom }]
        } else {
            Seq::empty()
        },
        None => Seq::empty(),
    }
}

/// Why a bid is refused, if it is. The checks run in this order: the shared
/// entry checks, the amount, the funds sent.
pub open spec fn place_bid_refusal(
    s: StateView,
    now: u64,
    sender: Seq<char>,
    sent: u128,
    id: u64,
    amount: u128,
) -> Option<ContractError> {
    if s.entry_refusal(id, sender, now) is Some {
        s.entry_refusal(id, sender, now)
    } else if !bid_acceptable(s.registry.get(id), amount) {
        Some(ContractError::BidTooLow)
    } else if sent < amount {
        Some(ContractError::InsufficientFunds)
    } else {
        None
    }
}

/// The attributes of an accepted bid.
pub open spec fn place_bid_attributes(id: u64, sender: Seq<char>, amount: u128) -> Seq<
    (Seq<char>, Seq<char>),
> {
    seq![
        ("action"@, "place_bid"@),
        ("auction_id"@, decimal(id as nat)),
        ("bidder"@, sender),
        ("amount"@, decimal(amount as nat)),
    ]
}

/// The bid command as a function of the state: `sender` bids `amount` on the
/// auction `id` at time `now`, having sent `sent` in the settlement
/// denomination.
pub open spec fn place_bid(
    s: StateView,
    now: u64,
    sender: Seq<char>,
    sent: u128,
    id: u64,
    amount: u128,
) -> Outcome {
    match place_bid_refusal(s, now, sender, sent, id, amount) {
        Some(e) => Outcome { state: s.after_refusal(id, e), result: Err(e) },
        None => {
            let a = s.registry.get(id);
            let bid = BidView { bidder: sender, amount, timestamp: now };
            Outcome {
                state: s.with_auction(id, a.with_bid(bid)),
                result: Ok(
                    ResponseView {
                        messages: refund_of(a.highest_bid, sender, s.config.token_denom),
                        attributes: place_bid_attributes(id, sender, amount),
                    },
                ),
            }
        },
    }
}

/// Runs the checks that bidding and buying share and hands out a copy of the
/// auction. An auction found past its end time is marked `Ended` on the way.
pub fn load_for_entry(state: &mut State, id: u64, actor: &String, now: u64) -> (r: Result<
    Auction,
    ContractError,
>)
    requires
        old(state).wf(),
    ensures
        final(state).wf(),
        match r {
            Ok(a) => old(state)@.entry_refusal(id, actor@, now) is None && a@ == old(
                state,
            )@.registry.get(id) && final(state)@ == old(state)@,
            Err(e) => old(state)@.entry_refusal(id, actor@, now) == Some(e) && final(state)@
                == old(state)@.after_refusal(id, e),
        },
{
    let mut auction = match state.registry.load(id) {
        Ok(a) => a,
        Err(e) => {
            return Err(e);
        },
    };
    if auction.status != AuctionStatus::Active {
        return Err(ContractError::AuctionNotActive);
    }
    if now > auction.end_time {
        auction.status = AuctionStatus::Ended;
        state.registry.save(id, auction)?;
        return Err(ContractError::AuctionEnded);
    }
    match state.check_gate(actor, now) {
        Ok(_) => Ok(auction),
        Err(e) => Err(e),
    }
}

/// Records `bid` on `auction` as its newest and highest bid.
pub fn record_bid(auction: &mut Auction, bid: Bid)
    ensures
        final(auction)@ == old(auction)@.with_bid(bid@),
{
    auction.bids.push(bid.clone());
    auction.highest_bid = Some(bid);
    assert(auction@.bids =~= old(auction)@.bids.push(bid@));
}

/// Builds the refund owed to the previous highest bidder of `auction` when
/// `new_bidder` takes the lead.
pub fn add_refund(resp: &mut Response, auction: &Auction, new_bidder: &String, denom: &String)
    ensures
        final(resp)@.attributes == old(resp)@.attributes,
        final(resp)@.messages == old(resp)@.messages + refund_of(
            auction@.highest_bid,
            new_bidder@,
            denom@,
        ),
{
    if let Some(prev) = &auction.highest_bid {
        if !(prev.bidder == *new_bidder) {
            resp.add_transfer(prev.bidder.clone(), prev.amount, denom.clone());
        }
    }
    assert(resp@.messages =~= old(resp)@.messages + refund_of(
        auction@.highest_bid,
        new_bidder@,
        denom@,
    ));
}

/// Places a bid of `amount` on the auction `auction_id` for the sender.
///
/// The bid is refused, in this order, when the auction is unknown, is not
/// active, has run out (which marks it `Ended`), when the access gate turns
/// the sender away, when the amount is zero, below the starting price or not
/// above the highest bid, and when the funds sent in the settlement
/// denomination do not cover the amount. An accepted bid is appended to the
/// auction's bids and becomes its highest bid, and the response pays the
/// previous highest bidder back.
pub fn execute_place_bid(
    state: &mut State,
    env: &Env,
    info: &MessageInfo,
    auction_id: u64,
    amount: u128,
) -> (r: Result<Response, ContractError>)
    requires
        old(state).wf(),
    ensures
        final(state).wf(),
        final(state)@ == place_bid(
            old(state)@,
            env.time,
            info.sender@,
            spec_tendered(info.funds@, old(state)@.config.token_denom),
            auction_id,
            amount,
        ).state,
        result_view(r) == place_bid(
            old(state)@,
            env.time,
            info.sender@,
            spec_tendered(info.funds@, old(state)@.config.token_denom),
            auction_id,
            amount,
        ).result,
{
    let mut auction = match load_for_entry(state, auction_id, &info.sender, env.time) {
        Ok(a) => a,
        Err(e) => {
            return Err(e);
        },
    };
    if amount == 0 || amount < auction.starting_price {
        return Err(ContractError::BidTooLow);
    }
    if let Some(highest) = &auction.highest_bid {
        if amount <= highest.amount {
            return Err(ContractError::BidTooLow);
        }
    }
    let sent = tendered(&info.funds, &state.config.token_denom);
    if sent < amount {
        return Err(ContractError::InsufficientFunds);
    }
    let mut resp = Response::new();
    add_refund(&mut resp, &auction, &info.sender, &state.config.token_denom);
    record_bid(
        &mut auction,
        Bid { bidder: info.sender.clone(), amount, timestamp: env.time },
    );
    state.registry.save(auction_id, auction)?;
    resp.add_attribute("action", "place_bid".to_owned());
    resp.add_attribute("auction_id", u64_to_decimal(auction_id));
    resp.add_attribute("bidder", info.sender.clone());
    resp.add_attribute("amount", u128_to_decimal(amount));
    assert(resp@.attributes =~= place_bid_attributes(auction_id, info.sender@, amount));
    assert(resp@.messages =~= refund_of(
        old(state)@.registry.get(auction_id).highest_bid,
        info.sender@,
        old(state)@.config.token_denom,
    ));
    Ok(resp)
}

} // verus!
