//! The buy-now shortcut: an immediate purchase at the listed price.

use vstd::prelude::*;
use crate::bidding::{add_refund, load_for_entry, record_bid, refund_of};
use crate::engine::{Env, MessageInfo, Outcome, State, StateView, result_view};
use crate::error::ContractError;
use crate::response::{Response, ResponseView, TransferView, spec_tendered, tendered};
use crate::state::{AuctionStatus, Bid, BidView};
use crate::text::{decimal, u128_to_decimal, u64_to_decimal};

verus! {

/// Why a purchase is refused, if it is. The checks run in this order: the
/// shared entry checks, that the auction has a buy-now price, that the funds
/// sent reach it.
pub open spec fn buy_now_refusal(s: StateView, now: u64, sender: Seq<char>, sent: u128, id: u64)
    -> Option<ContractError> {
    if s.entry_refusal(id, sender, now) is Some {
        s.entry_refusal(id, sender, now)
    } else if s.registry.get(id).buy_now_price is None {
        Some(ContractError::NoBuyNowPrice)
    } else if sent < s.registry.get(id).buy_now_price->0 {
        Some(ContractError::InsufficientFunds)
    } else {
        None
    }
}

/// What a buyer gets back who sent `sent` for a price of `price`: the excess,
/// if there is any.
pub open spec fn overpayment_refund(buyer: Seq<char>, sent: u128, price: u128, denom: Seq<char>)
    -> Seq<TransferView> {
    if sent > price {
        seq![TransferView { to_address: buyer, amount: (sent - price) as u128, denom }]
    } else {
        Seq::empty()
    }
}

/// The attributes of a purchase.
pub open spec fn buy_now_attributes(id: u64, buyer: Seq<char>, price: u128) -> Seq<
    (Seq<char>, Seq<char>),
> {
    seq![
        ("action"@, "buy_now"@),
        ("auction_id"@, decimal(id as nat)),
        ("buyer"@, buyer),
        ("amount"@, decimal(price as nat)),
    ]
}

/// The purchase command as a function of the state: `sender` buys the item
/// of the auction `id` at time `now`, having sent `sent` in the settlement
/// denomination.
pub open spec fn buy_now(s: StateView, now: u64, sender: Seq<char>, sent: u128, id: u64)
    -> Outcome {
    match buy_now_refusal(s, now, sender, sent, id) {
        Some(e) => Outcome { state: s.after_refusal(id, e), result: Err(e) },
        None => {
            let a = s.registry.get(id);
            let price = a.buy_now_price->0;
            let bid = BidView { bidder: sender, amount: price, timestamp: now };
            Outcome {
                state: s.with_auction(id, a.with_bid(bid).with_status(AuctionStatus::Sold)),
                result: Ok(
                    ResponseView {
                        messages: refund_of(a.highest_bid, sender, s.config.token_denom)
                            + overpayment_refund(sender, sent, price, s.config.token_denom),
                        attributes: buy_now_attributes(id, sender, price),
                    },
                ),
            }
        },
    }
}

/// Buys the item of the auction `auction_id` for the sender at its buy-now
/// price.
///
/// The purchase is refused, in this order, when the auction is unknown, is
/// not active, has run out (which marks it `Ended`), when the access gate
/// turns the sender away, when the auction has no buy-now price, and when
/// the funds sent in the settlement denomination are below that price. An
/// accepted purchase records a bid of exactly the buy-now price as the
/// highest bid and marks the auction `Sold` at once. The response pays the
/// previous highest bidder back and returns to the buyer what was sent above
/// the price.
pub fn execute_buy_it_now(state: &mut State, env: &Env, info: &MessageInfo, auction_id: u64) -> (r:
    Result<Response, ContractError>)
    requires
        old(state).wf(),
    ensures
        final(state).wf(),
        final(state)@ == buy_now(
            old(state)@,
            env.time,
            info.sender@,
            spec_tendered(info.funds@, old(state)@.config.token_denom),
            auction_id,
        ).state,
        result_view(r) == buy_now(
            old(state)@,
            env.time,
            info.sender@,
            spec_tendered(info.funds@, old(state)@.config.token_denom),
            auction_id,
        ).result,
{
    let mut auction = match load_for_entry(state, auction_id, &info.sender, env.time) {
        Ok(a) => a,
        Err(e) => {
            return Err(e);
        },
    };
    let price = match auction.buy_now_price {
        Some(p) => p,
        None => {
            return Err(ContractError::NoBuyNowPrice);
        },
    };
    let sent = tendered(&info.funds, &state.config.token_denom);
    if sent < price {
        return Err(ContractError::InsufficientFunds);
    }
    let mut resp = Response::new();
    add_refund(&mut resp, &auction, &info.sender, &state.config.token_denom);
    if sent > price {
        resp.add_transfer(info.sender.clone(), sent - price, state.config.token_denom.clone());
    }
    record_bid(
        &mut auction,
        Bid { bidder: info.sender.clone(), amount: price, timestamp: env.time },
    );
    auction.status = AuctionStatus::Sold;
    state.registry.save(auction_id, auction)?;
    resp.add_attribute("action", "buy_now".to_owned());
    resp.add_attribute("auction_id", u64_to_decimal(auction_id));
    resp.add_attribute("buyer", info.sender.clone());
    resp.add_attribute("amount", u128_to_decimal(price));
    assert(resp@.attributes =~= buy_now_attributes(auction_id, info.sender@, price));
    assert(resp@.messages =~= refund_of(
        old(state)@.registry.get(auction_id).highest_bid,
        info.sender@,
        old(state)@.config.token_denom,
    ) + overpayment_refund(info.sender@, sent, price, old(state)@.config.token_denom));
    Ok(resp)
}

} // verus!
