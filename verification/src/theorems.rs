//! What holds of every state the engine can reach and of every command,
//! stated over the commands as functions of the state.

use vstd::prelude::*;
use crate::bidding::{place_bid, place_bid_refusal, refund_of};
use crate::buy_now::{buy_now, buy_now_refusal, overpayment_refund};
use crate::contract::{dispatch, initial_state};
use crate::engine::{Outcome, REQUIRED_KYC_LEVEL, StateView};
use crate::error::ContractError;
use crate::fees::{fee_of, lemma_fee_bounded, seller_share};
use crate::kyc::KycRegistryView;
use crate::msg::{ExecuteMsg, InstantiateMsg};
use crate::response::{ResponseView, TransferView};
use crate::settlement::{payout, reserve_met, settle, total, transfer_unless_zero};
use crate::state::{AuctionStatus, AuctionView, BidView, ConfigView, MAX_FEE_BPS};

verus! {

/// In every auction of `s` each recorded bid is larger than the one before.
pub open spec fn all_bids_increasing(s: StateView) -> bool {
    forall|id: u64| #[trigger] s.registry.contains(id) ==> s.registry.get(id).bids_increasing()
}

/// Whether a purchase on the auction `id` leaves its bids in increasing
/// order: it does unless the auction already has a bid at or above its
/// buy-now price.
pub open spec fn purchase_keeps_order(s: StateView, id: u64) -> bool {
    s.registry.contains(id) ==> {
        let a = s.registry.get(id);
        a.highest_bid matches Some(h) ==> (a.buy_now_price matches Some(p) ==> p > h.amount)
    }
}

/// Recording a bid above the highest bid keeps the bids in increasing order.
pub proof fn lemma_with_bid_increasing(a: AuctionView, bid: BidView)
    requires
        a.wf(),
        a.bids_increasing(),
        a.highest_bid matches Some(h) ==> bid.amount > h.amount,
    ensures
        a.with_bid(bid).wf(),
        a.with_bid(bid).bids_increasing(),
{
    let b = a.with_bid(bid);
    assert forall|i: int, j: int| 0 <= i < j < b.bids.len() implies (#[trigger] b.bids[i]).amount
        < (#[trigger] b.bids[j]).amount by {
        if j < a.bids.len() {
            assert(a.bids[i].amount < a.bids[j].amount);
        } else {
            let last = a.bids.len() - 1;
            assert(a.bids.last() == a.highest_bid->0);
            if i < last {
                assert(a.bids[i].amount < a.bids[last].amount);
            }
        }
    }
}

/// Every command keeps a well-formed state well formed.
pub proof fn law_commands_keep_state_well_formed(
    s: StateView,
    now: u64,
    sender: Seq<char>,
    sent: u128,
    msg: ExecuteMsg,
)
    requires
        s.wf(),
    ensures
        dispatch(s, now, sender, sent, msg).state.wf(),
{
    let t = dispatch(s, now, sender, sent, msg).state;
    assert(t.config == s.config);
    assert forall|i: int| 0 <= i < t.registry.auctions.len() implies (
    #[trigger] t.registry.auctions[i]).wf() by {
        if i < s.registry.auctions.len() {
            assert(s.registry.auctions[i].wf());
        }
    }
}

/// The order of bids. In a well-formed state whose auctions all have their
/// bids in strictly increasing order, they still have after any command,
/// a purchase at a price not above the standing highest bid excepted. A
/// fresh engine has no bids, so of every auction that sees no such purchase
/// the amounts of the accepted bids are strictly increasing.
pub proof fn law_bids_strictly_increasing(
    s: StateView,
    now: u64,
    sender: Seq<char>,
    sent: u128,
    msg: ExecuteMsg,
)
    requires
        s.wf(),
        all_bids_increasing(s),
        msg matches ExecuteMsg::BuyNow { auction_id } ==> purchase_keeps_order(s, auction_id),
    ensures
        all_bids_increasing(dispatch(s, now, sender, sent, msg).state),
{
    let t = dispatch(s, now, sender, sent, msg).state;
    assert forall|id: u64| #[trigger] t.registry.contains(id) implies t.registry.get(
        id,
    ).bids_increasing() by {
        let k = id - s.registry.first_id;
        if s.registry.contains(id) {
            let a = s.registry.get(id);
            assert(a.wf());
            assert(a.bids_increasing());
            match msg {
                ExecuteMsg::PlaceBid { auction_id, amount } => {
                    if auction_id == id && place_bid_refusal(s, now, sender, sent, id, amount)
                        is None {
                        lemma_with_bid_increasing(
                            a,
                            BidView { bidder: sender, amount, timestamp: now },
                        );
                    }
                },
                ExecuteMsg::BuyNow { auction_id } => {
                    if auction_id == id && buy_now_refusal(s, now, sender, sent, id) is None {
                        lemma_with_bid_increasing(
                            a,
                            BidView {
                                bidder: sender,
                                amount: a.buy_now_price->0,
                                timestamp: now,
                            },
                        );
                    }
                },
                _ => {},
            }
        } else {
            assert(t.registry.get(id).bids.len() == 0);
        }
    }
}

/// A fresh engine has no auction, so every auction in it has its bids in
/// order.
pub proof fn law_initial_state_well_formed(msg: InstantiateMsg)
    requires
        msg.fee_bps <= MAX_FEE_BPS,
    ensures
        initial_state(msg).wf(),
        all_bids_increasing(initial_state(msg)),
{
}

/// One command as the engine receives it: the time, the sender, what the
/// sender sent in the settlement denomination, and the command itself.
pub struct Call {
    pub now: u64,
    pub sender: Seq<char>,
    pub sent: u128,
    pub msg: ExecuteMsg,
}

/// The state after the commands `calls` have run on `s` one after another,
/// refused ones included.
pub open spec fn run(s: StateView, calls: Seq<Call>) -> StateView
    decreases calls.len(),
{
    if calls.len() == 0 {
        s
    } else {
        let c = calls.last();
        dispatch(run(s, calls.drop_last()), c.now, c.sender, c.sent, c.msg).state
    }
}

/// No purchase among `calls`, run on `s`, is made at a price that is not
/// above the highest bid standing at that moment.
pub open spec fn no_purchase_below_highest_bid(s: StateView, calls: Seq<Call>) -> bool {
    forall|k: int|
        0 <= k < calls.len() ==> ((#[trigger] calls[k]).msg matches ExecuteMsg::BuyNow {
            auction_id,
        } ==> purchase_keeps_order(run(s, calls.take(k)), auction_id))
}

/// Every state that the engine reaches is well formed, and in every auction
/// the amounts of the recorded bids are strictly increasing: this holds after
/// set-up and after any run of commands in which no purchase is made at a
/// price that is not above the highest bid standing at that moment.
pub proof fn law_reachable_states_keep_bids_increasing(msg: InstantiateMsg, calls: Seq<Call>)
    requires
        msg.fee_bps <= MAX_FEE_BPS,
        no_purchase_below_highest_bid(initial_state(msg), calls),
    ensures
        run(initial_state(msg), calls).wf(),
        all_bids_increasing(run(initial_state(msg), calls)),
    decreases calls.len(),
{
    let s = initial_state(msg);
    if calls.len() == 0 {
        law_initial_state_well_formed(msg);
    } else {
        let earlier = calls.drop_last();
        let c = calls.last();
        assert forall|k: int| 0 <= k < earlier.len() implies ((
        #[trigger] earlier[k]).msg matches ExecuteMsg::BuyNow { auction_id }
            ==> purchase_keeps_order(run(s, earlier.take(k)), auction_id)) by {
            assert(earlier[k] == calls[k]);
            assert(earlier.take(k) =~= calls.take(k));
        }
        law_reachable_states_keep_bids_increasing(msg, earlier);
        let before = run(s, earlier);
        assert(calls.take(calls.len() - 1) =~= earlier);
        assert(calls[calls.len() - 1] == c);
        law_commands_keep_state_well_formed(before, c.now, c.sender, c.sent, c.msg);
        law_bids_strictly_increasing(before, c.now, c.sender, c.sent, c.msg);
    }
}

/// Funds that cover the bid play no part: whatever a bidder sends at or
/// above the amount bid, the bid is judged, recorded and answered in the same
/// way. Funds enter only as the refusal `InsufficientFunds`, which comes last
/// and changes nothing.
pub proof fn law_covering_funds_play_no_part(
    s: StateView,
    now: u64,
    sender: Seq<char>,
    sent: u128,
    id: u64,
    amount: u128,
)
    ensures
        sent >= amount ==> place_bid(s, now, sender, sent, id, amount) == place_bid(
            s,
            now,
            sender,
            amount,
            id,
            amount,
        ),
        sent < amount ==> {
            ||| place_bid(s, now, sender, sent, id, amount) == place_bid(
                s,
                now,
                sender,
                amount,
                id,
                amount,
            )
            ||| (place_bid(s, now, sender, amount, id, amount).result is Ok && place_bid(
                s,
                now,
                sender,
                sent,
                id,
                amount,
            ) == Outcome {
                state: s,
                result: Err::<ResponseView, ContractError>(ContractError::InsufficientFunds),
            })
        },
{
}

/// The refund of the outbid. When an accepted bid takes the lead from
/// another bidder, the response holds exactly one transfer, and it returns
/// the whole of the superseded bid to its bidder.
pub proof fn law_superseded_bidder_refunded_once(
    s: StateView,
    now: u64,
    sender: Seq<char>,
    sent: u128,
    id: u64,
    amount: u128,
)
    requires
        place_bid(s, now, sender, sent, id, amount).result is Ok,
        s.registry.get(id).highest_bid is Some,
        s.registry.get(id).highest_bid->0.bidder != sender,
    ensures
        place_bid(s, now, sender, sent, id, amount).result->Ok_0.messages == seq![
            TransferView {
                to_address: s.registry.get(id).highest_bid->0.bidder,
                amount: s.registry.get(id).highest_bid->0.amount,
                denom: s.config.token_denom,
            },
        ],
{
}

/// The refund of the outbid on a purchase. When an accepted purchase takes
/// the lead from another bidder, the response returns the whole of the
/// superseded bid to its bidder, once and first; the only other transfer
/// there can be is the buyer's own overpayment.
pub proof fn law_purchase_refunds_superseded_bidder(
    s: StateView,
    now: u64,
    sender: Seq<char>,
    sent: u128,
    id: u64,
)
    requires
        buy_now(s, now, sender, sent, id).result is Ok,
        s.registry.get(id).highest_bid is Some,
        s.registry.get(id).highest_bid->0.bidder != sender,
    ensures
        ({
            let messages = buy_now(s, now, sender, sent, id).result->Ok_0.messages;
            let prev = s.registry.get(id).highest_bid->0;
            let refund = TransferView {
                to_address: prev.bidder,
                amount: prev.amount,
                denom: s.config.token_denom,
            };
            &&& 1 <= messages.len() <= 2
            &&& messages[0] == refund
            &&& messages.len() == 2 ==> messages[1].to_address == sender
        }),
{
}

/// Settlement happens once. After a settlement that went through, settling
/// the same auction again fails with `AlreadySettled`, whoever asks, and
/// changes nothing; a refusal carries no transfer.
pub proof fn law_settle_twice_fails(s: StateView, first: Seq<char>, second: Seq<char>, id: u64)
    requires
        settle(s, first, id).result is Ok,
    ensures
        settle(settle(s, first, id).state, second, id).result == Err::<
            ResponseView,
            ContractError,
        >(ContractError::AlreadySettled),
        settle(settle(s, first, id).state, second, id).state == settle(s, first, id).state,
{
}

/// Funds are conserved by the split. At any fee rate up to 100 % the fee
/// and the seller's share are both non-negative and add up to the amount.
pub proof fn law_fee_and_share_add_up(amount: u128, fee_bps: u64)
    requires
        fee_bps <= MAX_FEE_BPS,
    ensures
        fee_of(amount, fee_bps) + seller_share(amount, fee_bps) == amount,
        0 <= fee_of(amount, fee_bps) <= amount,
        0 <= seller_share(amount, fee_bps) <= amount,
{
    lemma_fee_bounded(amount, fee_bps);
}

/// Funds are conserved by settlement. The transfers of a settlement add up
/// to the highest bid exactly, be it paid out or refunded, and to nothing
/// when there is no bid.
pub proof fn law_settlement_pays_out_highest_bid(cfg: ConfigView, a: AuctionView)
    requires
        cfg.wf(),
    ensures
        total(payout(cfg, a)) == match a.highest_bid {
            Some(h) => h.amount as int,
            None => 0,
        },
{
    reveal_with_fuel(total, 3);
    match a.highest_bid {
        None => {},
        Some(h) => {
            lemma_fee_bounded(h.amount, cfg.fee_bps);
            let fee = fee_of(h.amount, cfg.fee_bps);
            let share = seller_share(h.amount, cfg.fee_bps);
            let f = transfer_unless_zero(cfg.fee_address, fee, cfg.token_denom);
            let g = transfer_unless_zero(a.seller, share, cfg.token_denom);
            if !reserve_met(a) {
                let r = seq![
                    TransferView { to_address: h.bidder, amount: h.amount, denom: cfg.token_denom },
                ];
                assert(r.drop_last() =~= Seq::empty());
            } else {
                let p = f + g;
                if fee > 0 && share > 0 {
                    assert(p.drop_last() =~= f);
                    assert(f.drop_last() =~= Seq::empty());
                } else if fee > 0 {
                    assert(p =~= f);
                    assert(f.drop_last() =~= Seq::empty());
                } else if share > 0 {
                    assert(p =~= g);
                    assert(g.drop_last() =~= Seq::empty());
                } else {
                    assert(p =~= Seq::empty());
                }
            }
        },
    }
}

/// What the engine holds in escrow for an auction: its highest bid, until
/// the auction is settled.
pub open spec fn escrowed(a: AuctionView) -> int {
    if a.status == AuctionStatus::Settled {
        0
    } else {
        match a.highest_bid {
            Some(h) => h.amount as int,
            None => 0,
        }
    }
}

/// Escrow is conserved by a bid. When a bidder who does not hold the lead
/// pays exactly the amount bid, what was in escrow plus what came in equals
/// what is in escrow afterwards plus what the response sends out: only the
/// new highest bid stays.
pub proof fn law_bid_conserves_escrow(
    s: StateView,
    now: u64,
    sender: Seq<char>,
    id: u64,
    amount: u128,
)
    requires
        place_bid(s, now, sender, amount, id, amount).result is Ok,
        s.registry.get(id).highest_bid matches Some(h) ==> h.bidder != sender,
    ensures
        ({
            let after = place_bid(s, now, sender, amount, id, amount);
            escrowed(s.registry.get(id)) + amount == escrowed(after.state.registry.get(id))
                + total(after.result->Ok_0.messages)
        }),
{
    reveal_with_fuel(total, 2);
    let after = place_bid(s, now, sender, amount, id, amount);
    let messages = after.result->Ok_0.messages;
    if s.registry.get(id).highest_bid is Some {
        assert(messages.drop_last() =~= Seq::empty());
    }
}

/// Escrow is conserved by a purchase. When a buyer who does not hold the
/// lead buys, what was in escrow plus what came in equals what is in escrow
/// afterwards plus what the response sends out: only the price stays.
pub proof fn law_purchase_conserves_escrow(
    s: StateView,
    now: u64,
    sender: Seq<char>,
    sent: u128,
    id: u64,
)
    requires
        buy_now(s, now, sender, sent, id).result is Ok,
        s.registry.get(id).highest_bid matches Some(h) ==> h.bidder != sender,
    ensures
        ({
            let after = buy_now(s, now, sender, sent, id);
            escrowed(s.registry.get(id)) + sent == escrowed(after.state.registry.get(id)) + total(
                after.result->Ok_0.messages,
            )
        }),
{
    reveal_with_fuel(total, 3);
    let a = s.registry.get(id);
    let price = a.buy_now_price->0;
    let after = buy_now(s, now, sender, sent, id);
    let messages = after.result->Ok_0.messages;
    let refund = refund_of(a.highest_bid, sender, s.config.token_denom);
    let excess = overpayment_refund(sender, sent, price, s.config.token_denom);
    assert(messages == refund + excess);
    if a.highest_bid is Some && sent > price {
        assert(messages.drop_last() =~= refund);
        assert(refund.drop_last() =~= Seq::empty());
    } else if a.highest_bid is Some {
        assert(messages =~= refund);
        assert(refund.drop_last() =~= Seq::empty());
    } else if sent > price {
        assert(messages =~= excess);
        assert(excess.drop_last() =~= Seq::empty());
    } else {
        assert(messages =~= Seq::empty());
    }
}

/// Escrow is released by settlement, all of it: the response sends out
/// exactly what was in escrow, and nothing is in escrow afterwards.
pub proof fn law_settlement_releases_escrow(s: StateView, caller: Seq<char>, id: u64)
    requires
        s.wf(),
        settle(s, caller, id).result is Ok,
    ensures
        total(settle(s, caller, id).result->Ok_0.messages) == escrowed(s.registry.get(id)),
        escrowed(settle(s, caller, id).state.registry.get(id)) == 0,
{
    law_settlement_pays_out_highest_bid(s.config, s.registry.get(id));
}

/// The blacklist decides first: a barred address is refused as
/// `Blacklisted`, whatever its record says.
pub proof fn law_blacklist_takes_precedence(
    kyc: KycRegistryView,
    address: Seq<char>,
    required_level: u8,
    now: u64,
)
    requires
        kyc.blacklist.contains(address),
    ensures
        kyc.refusal(address, required_level, now) == Some(ContractError::Blacklisted),
{
}

/// The order of the access checks. For an address that is not barred: no
/// record means `KycRequired`; a record fails with `KycExpired` exactly when
/// it has an expiry time that has passed, whatever its level and its flag;
/// an unexpired record fails with `InsufficientKycLevel` exactly when its
/// level is below the required one, whatever its flag; and only a record
/// that passes both is asked for its `verified` flag.
pub proof fn law_access_checks_in_order(
    kyc: KycRegistryView,
    address: Seq<char>,
    required_level: u8,
    now: u64,
)
    requires
        !kyc.blacklist.contains(address),
    ensures
        !kyc.records.dom().contains(address) ==> kyc.verified(address, required_level, now)
            == Err::<bool, ContractError>(ContractError::KycRequired),
        kyc.records.dom().contains(address) ==> {
            let record = kyc.records[address];
            let expired = record.expires_at is Some && now > record.expires_at->0;
            let result = kyc.verified(address, required_level, now);
            &&& result == Err::<bool, ContractError>(ContractError::KycExpired) <==> expired
            &&& result == Err::<bool, ContractError>(
                ContractError::InsufficientKycLevel {
                    required: required_level,
                    has: record.level,
                },
            ) <==> !expired && record.level < required_level
            &&& result == Ok::<bool, ContractError>(record.verified) <==> !expired && record.level
                >= required_level
            &&& kyc.refusal(address, required_level, now) is None <==> !expired && record.level
                >= required_level && record.verified
        },
{
}

/// The access gate stands before every bid, purchase and listing: while it
/// is on, none of them is accepted from an address that it refuses.
pub proof fn law_no_entry_without_clearance(
    s: StateView,
    now: u64,
    sender: Seq<char>,
    sent: u128,
    msg: ExecuteMsg,
)
    requires
        s.config.require_kyc,
        s.kyc.refusal(sender, REQUIRED_KYC_LEVEL, now) is Some,
        msg is PlaceBid || msg is BuyNow || msg is CreateAuction,
    ensures
        dispatch(s, now, sender, sent, msg).result is Err,
{
}

/// A purchase sells at once. An accepted purchase leaves the auction
/// `Sold` in the same call, without waiting for its end time.
pub proof fn law_purchase_marks_sold(
    s: StateView,
    now: u64,
    sender: Seq<char>,
    sent: u128,
    id: u64,
)
    requires
        buy_now(s, now, sender, sent, id).result is Ok,
    ensures
        buy_now(s, now, sender, sent, id).state.registry.contains(id),
        buy_now(s, now, sender, sent, id).state.registry.get(id).status == AuctionStatus::Sold,
        now <= s.registry.get(id).end_time,
{
}

/// No bid after a sale. On a sold auction every bid fails with
/// `AuctionNotActive` and changes nothing, whoever bids, whatever the amount
/// and the time.
pub proof fn law_no_bid_on_sold_auction(
    s: StateView,
    now: u64,
    sender: Seq<char>,
    sent: u128,
    id: u64,
    amount: u128,
)
    requires
        s.registry.contains(id),
        s.registry.get(id).status == AuctionStatus::Sold,
    ensures
        place_bid(s, now, sender, sent, id, amount).result == Err::<
            ResponseView,
            ContractError,
        >(ContractError::AuctionNotActive),
        place_bid(s, now, sender, sent, id, amount).state == s,
{
}

/// An auction that has left `Active` never returns to it: no command makes
/// an auction active that was not.
pub proof fn law_status_never_returns_to_active(
    s: StateView,
    now: u64,
    sender: Seq<char>,
    sent: u128,
    msg: ExecuteMsg,
    id: u64,
)
    requires
        s.registry.contains(id),
        s.registry.get(id).status != AuctionStatus::Active,
    ensures
        dispatch(s, now, sender, sent, msg).state.registry.contains(id),
        dispatch(s, now, sender, sent, msg).state.registry.get(id).status
            != AuctionStatus::Active,
{
}

/// A settled auction is final: no command changes it.
pub proof fn law_settled_is_final(
    s: StateView,
    now: u64,
    sender: Seq<char>,
    sent: u128,
    msg: ExecuteMsg,
    id: u64,
)
    requires
        s.registry.contains(id),
        s.registry.get(id).status == AuctionStatus::Settled,
    ensures
        dispatch(s, now, sender, sent, msg).state.registry.contains(id),
        dispatch(s, now, sender, sent, msg).state.registry.get(id) == s.registry.get(id),
{
}

/// The bids of an auction are append-only: no command removes or changes a
/// recorded bid; a command leaves the bids as they are or adds one at the
/// end.
pub proof fn law_bids_are_append_only(
    s: StateView,
    now: u64,
    sender: Seq<char>,
    sent: u128,
    msg: ExecuteMsg,
    id: u64,
)
    requires
        s.registry.contains(id),
    ensures
        ({
            let before = s.registry.get(id).bids;
            let after = dispatch(s, now, sender, sent, msg).state.registry.get(id).bids;
            after == before || (after.len() == before.len() + 1 && after.drop_last() == before)
        }),
{
    let before = s.registry.get(id).bids;
    let after = dispatch(s, now, sender, sent, msg).state.registry.get(id).bids;
    if after != before {
        assert(after.drop_last() =~= before);
    }
}

/// The configuration is fixed at set-up: no command changes it.
pub proof fn law_configuration_is_fixed(
    s: StateView,
    now: u64,
    sender: Seq<char>,
    sent: u128,
    msg: ExecuteMsg,
)
    ensures
        dispatch(s, now, sender, sent, msg).state.config == s.config,
{
}

/// Ids are never reused: every command leaves each registered auction under
/// its id, and a listing takes the next id above all of them.
pub proof fn law_ids_are_stable(
    s: StateView,
    now: u64,
    sender: Seq<char>,
    sent: u128,
    msg: ExecuteMsg,
    id: u64,
)
    requires
        s.registry.contains(id),
    ensures
        dispatch(s, now, sender, sent, msg).state.registry.contains(id),
        dispatch(s, now, sender, sent, msg).state.registry.first_id == s.registry.first_id,
        dispatch(s, now, sender, sent, msg).state.registry.get(id).created_at == s.registry.get(
            id,
        ).created_at,
        dispatch(s, now, sender, sent, msg).state.registry.get(id).seller == s.registry.get(
            id,
        ).seller,
{
}

} // verus!
