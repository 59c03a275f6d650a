//! Closing an auction and settling it: the exactly-once distribution of the
//! winning bid between the fee recipient and the seller, or its refund.

use vstd::prelude::*;
use crate::engine::{Env, MessageInfo, Outcome, State, StateView, result_view};
use crate::error::ContractError;
use crate::fees::{fee_of, seller_share, split_payout};
use crate::response::{Response, ResponseView, TransferView};
use crate::state::{Auction, AuctionStatus, AuctionView, ConfigView};
use crate::text::{decimal, u128_to_decimal, u64_to_decimal};

verus! {

/// The name of a status in event attributes.
pub open spec fn spec_status_name(status: AuctionStatus) -> Seq<char> {
    match status {
        AuctionStatus::Active => "active"@,
        AuctionStatus::Ended => "ended"@,
        AuctionStatus::Sold => "sold"@,
        AuctionStatus::Cancelled => "cancelled"@,
        AuctionStatus::Settled => "settled"@,
    }
}

/// The name of a status in event attributes.
pub fn status_name(status: AuctionStatus) -> (r: String)
    ensures
        r@ == spec_status_name(status),
{
    match status {
        AuctionStatus::Active => "active".to_owned(),
        AuctionStatus::Ended => "ended".to_owned(),
        AuctionStatus::Sold => "sold".to_owned(),
        AuctionStatus::Cancelled => "cancelled".to_owned(),
        AuctionStatus::Settled => "settled".to_owned(),
    }
}

/// Why closing is refused, if it is: the auction is unknown; it is not
/// active; or its end time has not passed and the caller is neither its
/// seller nor the administrator.
pub open spec fn close_refusal(s: StateView, now: u64, caller: Seq<char>, id: u64) -> Option<
    ContractError,
> {
    if !s.registry.contains(id) {
        Some(ContractError::AuctionNotFound)
    } else if s.registry.get(id).status != AuctionStatus::Active {
        Some(ContractError::AuctionNotActive)
    } else if now <= s.registry.get(id).end_time && caller != s.registry.get(id).seller && caller
        != s.config.admin {
        Some(ContractError::AuctionNotActive)
    } else {
        None
    }
}

/// The status that closing gives an auction: `Cancelled` when no bid was
/// ever recorded, `Ended` otherwise.
pub open spec fn closed_status(a: AuctionView) -> AuctionStatus {
    if a.bids.len() == 0 {
        AuctionStatus::Cancelled
    } else {
        AuctionStatus::Ended
    }
}

/// The attributes of a closing.
pub open spec fn close_attributes(id: u64, caller: Seq<char>, status: AuctionStatus) -> Seq<
    (Seq<char>, Seq<char>),
> {
    seq![
        ("action"@, "close_auction"@),
        ("auction_id"@, decimal(id as nat)),
        ("status"@, spec_status_name(status)),
        ("closed_by"@, caller),
    ]
}

/// The close command as a function of the state. Closing moves no funds.
pub open spec fn close(s: StateView, now: u64, caller: Seq<char>, id: u64) -> Outcome {
    match close_refusal(s, now, caller, id) {
        Some(e) => Outcome { state: s, result: Err(e) },
        None => {
            let a = s.registry.get(id);
            Outcome {
                state: s.with_auction(id, a.with_status(closed_status(a))),
                result: Ok(
                    ResponseView {
                        messages: Seq::empty(),
                        attributes: close_attributes(id, caller, closed_status(a)),
                    },
                ),
            }
        },
    }
}

/// Closes the auction `auction_id`.
///
/// Refused with `AuctionNotFound` for an unknown id, and with
/// `AuctionNotActive` when the auction is not active or when its end time
/// has not passed and the sender is neither its seller nor the
/// administrator. A closed auction becomes `Cancelled` when it has no bid
/// and `Ended` otherwise.
pub fn execute_close_auction(state: &mut State, env: &Env, info: &MessageInfo, auction_id: u64)
    -> (r: Result<Response, ContractError>)
    requires
        old(state).wf(),
    ensures
        final(state).wf(),
        final(state)@ == close(old(state)@, env.time, info.sender@, auction_id).state,
        result_view(r) == close(old(state)@, env.time, info.sender@, auction_id).result,
{
    let mut auction = match state.registry.load(auction_id) {
        Ok(a) => a,
        Err(e) => {
            return Err(e);
        },
    };
    if auction.status != AuctionStatus::Active {
        return Err(ContractError::AuctionNotActive);
    }
    if env.time <= auction.end_time && !(info.sender == auction.seller) && !(info.sender
        == state.config.admin) {
        return Err(ContractError::AuctionNotActive);
    }
    let status = if auction.bids.len() == 0 {
        AuctionStatus::Cancelled
    } else {
        AuctionStatus::Ended
    };
    auction.status = status;
    state.registry.save(auction_id, auction)?;
    let mut resp = Response::new();
    resp.add_attribute("action", "close_auction".to_owned());
    resp.add_attribute("auction_id", u64_to_decimal(auction_id));
    resp.add_attribute("status", status_name(status));
    resp.add_attribute("closed_by", info.sender.clone());
    assert(resp@.attributes =~= close_attributes(auction_id, info.sender@, status));
    Ok(resp)
}

/// Why settling is refused, if it is. In this order: the auction is unknown
/// (`AuctionNotFound`); it is settled already (`AlreadySettled`); it is
/// neither ended nor sold (`AuctionNotActive`); the caller is neither its
/// seller, who releases the funds, nor its highest bidder, who claims the
/// item (`Unauthorized`).
pub open spec fn settle_refusal(s: StateView, caller: Seq<char>, id: u64) -> Option<
    ContractError,
> {
    if !s.registry.contains(id) {
        Some(ContractError::AuctionNotFound)
    } else {
        let a = s.registry.get(id);
        if a.status == AuctionStatus::Settled {
            Some(ContractError::AlreadySettled)
        } else if a.status != AuctionStatus::Ended && a.status != AuctionStatus::Sold {
            Some(ContractError::AuctionNotActive)
        } else if caller != a.seller && !(a.highest_bid matches Some(h) && h.bidder == caller) {
            Some(ContractError::Unauthorized)
        } else {
            None
        }
    }
}

/// Whether the highest bid of `a` reaches the reserve price. An auction
/// without a reserve price, or without a bid, has nothing to fall short of.
pub open spec fn reserve_met(a: AuctionView) -> bool {
    match (a.reserve_price, a.highest_bid) {
        (Some(reserve), Some(h)) => h.amount >= reserve,
        _ => true,
    }
}

/// Checks the highest bid of `auction` against its reserve price. Fails with
/// `ReserveNotMet` exactly when there is a reserve price and a highest bid
/// below it; settlement then refunds the bid instead of paying it out.
pub fn check_reserve(auction: &Auction) -> (r: Result<(), ContractError>)
    ensures
        match r {
            Ok(_) => reserve_met(auction@),
            Err(e) => !reserve_met(auction@) && e == ContractError::ReserveNotMet,
        },
{
    match (auction.reserve_price, &auction.highest_bid) {
        (Some(reserve), Some(h)) => {
            if h.amount >= reserve {
                Ok(())
            } else {
                Err(ContractError::ReserveNotMet)
            }
        },
        _ => Ok(()),
    }
}

/// One transfer of `amount` to `to_address`, or none when `amount` is zero.
pub open spec fn transfer_unless_zero(to_address: Seq<char>, amount: int, denom: Seq<char>) -> Seq<
    TransferView,
> {
    if amount > 0 {
        seq![TransferView { to_address, amount: amount as u128, denom }]
    } else {
        Seq::empty()
    }
}

/// The transfers that settle `a`. Without a bid there are none. A highest
/// bid below the reserve price goes back to its bidder in full. Any other
/// highest bid is split: first the fee to the fee recipient, then the rest to
/// the seller, a part of zero being left out.
pub open spec fn payout(cfg: ConfigView, a: AuctionView) -> Seq<TransferView> {
    match a.highest_bid {
        None => Seq::empty(),
        Some(h) => if !reserve_met(a) {
            seq![
                TransferView { to_address: h.bidder, amount: h.amount, denom: cfg.token_denom },
            ]
        } else {
            transfer_unless_zero(cfg.fee_address, fee_of(h.amount, cfg.fee_bps), cfg.token_denom)
                + transfer_unless_zero(
                a.seller,
                seller_share(h.amount, cfg.fee_bps),
                cfg.token_denom,
            )
        },
    }
}

/// The sum of the amounts of `transfers`.
pub open spec fn total(transfers: Seq<TransferView>) -> int
    decreases transfers.len(),
{
    if transfers.len() == 0 {
        0
    } else {
        total(transfers.drop_last()) + transfers.last().amount
    }
}

/// The attributes of a settlement.
pub open spec fn settle_attributes(cfg: ConfigView, a: AuctionView, id: u64, caller: Seq<char>)
    -> Seq<(Seq<char>, Seq<char>)> {
    let head = seq![
        ("action"@, "settle_auction"@),
        ("auction_id"@, decimal(id as nat)),
        ("settled_by"@, caller),
    ];
    match a.highest_bid {
        None => head.push(("outcome"@, "no_bids"@)),
        Some(h) => if !reserve_met(a) {
            head.push(("outcome"@, "reserve_not_met"@)).push(
                ("refund"@, decimal(h.amount as nat)),
            )
        } else {
            head.push(("outcome"@, "paid"@)).push(("winner"@, h.bidder)).push(
                ("final_price"@, decimal(h.amount as nat)),
            ).push(("fee_amount"@, decimal(fee_of(h.amount, cfg.fee_bps) as nat))).push(
                ("seller_amount"@, decimal(seller_share(h.amount, cfg.fee_bps) as nat)),
            )
        },
    }
}

/// The settle command as a function of the state.
pub open spec fn settle(s: StateView, caller: Seq<char>, id: u64) -> Outcome {
    match settle_refusal(s, caller, id) {
        Some(e) => Outcome { state: s, result: Err(e) },
        None => {
            let a = s.registry.get(id);
            Outcome {
                state: s.with_auction(id, a.with_status(AuctionStatus::Settled)),
                result: Ok(
                    ResponseView {
                        messages: payout(s.config, a),
                        attributes: settle_attributes(s.config, a, id, caller),
                    },
                ),
            }
        },
    }
}

/// Settles the auction `auction_id`: releases the escrowed winning bid.
///
/// Refused, in this order, with `AuctionNotFound` for an unknown id, with
/// `AlreadySettled` when the auction is settled, with `AuctionNotActive`
/// when it is neither ended nor sold, and with `Unauthorized` when the
/// sender is neither its seller nor its highest bidder. Otherwise the
/// auction becomes `Settled` and the response carries the transfers of
/// `payout`: nothing without a bid, the full refund of a highest bid that
/// fails the reserve check, else the fee and the seller's share, which add
/// up to the highest bid.
pub fn execute_settle_auction(state: &mut State, info: &MessageInfo, auction_id: u64) -> (r:
    Result<Response, ContractError>)
    requires
        old(state).wf(),
    ensures
        final(state).wf(),
        final(state)@ == settle(old(state)@, info.sender@, auction_id).state,
        result_view(r) == settle(old(state)@, info.sender@, auction_id).result,
{
    let mut auction = match state.registry.load(auction_id) {
        Ok(a) => a,
        Err(e) => {
            return Err(e);
        },
    };
    if auction.status == AuctionStatus::Settled {
        return Err(ContractError::AlreadySettled);
    }
    if auction.status != AuctionStatus::Ended && auction.status != AuctionStatus::Sold {
        return Err(ContractError::AuctionNotActive);
    }
    let is_winner = match &auction.highest_bid {
        Some(h) => h.bidder == info.sender,
        None => false,
    };
    if !(info.sender == auction.seller) && !is_winner {
        return Err(ContractError::Unauthorized);
    }
    let ghost cfg = state@.config;
    let ghost a = auction@;
    let mut resp = Response::new();
    resp.add_attribute("action", "settle_auction".to_owned());
    resp.add_attribute("auction_id", u64_to_decimal(auction_id));
    resp.add_attribute("settled_by", info.sender.clone());
    match &auction.highest_bid {
        None => {
            resp.add_attribute("outcome", "no_bids".to_owned());
        },
        Some(h) => {
            if check_reserve(&auction).is_err() {
                resp.add_transfer(h.bidder.clone(), h.amount, state.config.token_denom.clone());
                resp.add_attribute("outcome", "reserve_not_met".to_owned());
                resp.add_attribute("refund", u128_to_decimal(h.amount));
            } else {
                let (fee, seller_amount) = split_payout(h.amount, state.config.fee_bps);
                if fee > 0 {
                    resp.add_transfer(
                        state.config.fee_address.clone(),
                        fee,
                        state.config.token_denom.clone(),
                    );
                }
                if seller_amount > 0 {
                    resp.add_transfer(
                        auction.seller.clone(),
                        seller_amount,
                        state.config.token_denom.clone(),
                    );
                }
                resp.add_attribute("outcome", "paid".to_owned());
                resp.add_attribute("winner", h.bidder.clone());
                resp.add_attribute("final_price", u128_to_decimal(h.amount));
                resp.add_attribute("fee_amount", u128_to_decimal(fee));
                resp.add_attribute("seller_amount", u128_to_decimal(seller_amount));
            }
        },
    }
    assert(resp@.attributes =~= settle_attributes(cfg, a, auction_id, info.sender@));
    assert(resp@.messages =~= payout(cfg, a));
    auction.status = AuctionStatus::Settled;
    state.registry.save(auction_id, auction)?;
    Ok(resp)
}

} // verus!
