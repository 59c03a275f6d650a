//! The entry points: setting the engine up, creating auctions and
//! dispatching commands.

use vstd::prelude::*;
use crate::bidding::{execute_place_bid, place_bid};
use crate::buy_now::{buy_now, execute_buy_it_now};
use crate::engine::{Env, MessageInfo, Outcome, State, StateView, result_view};
use crate::error::ContractError;
use crate::kyc::{
    KycRegistry,
    KycRegistryView,
    blacklist,
    blacklist_address,
    execute_revoke_verification,
    revoke,
    verify,
    verify_kyc,
};
use crate::msg::{ExecuteMsg, InstantiateMsg};
use crate::registry::{AuctionRegistry, RegistryView};
use crate::response::{Response, ResponseView, TransferView, spec_tendered};
use crate::settlement::{close, execute_close_auction, execute_settle_auction, settle};
use crate::state::{
    Auction,
    AuctionStatus,
    AuctionView,
    BidView,
    Config,
    ConfigView,
    MAX_FEE_BPS,
};
use crate::text::{decimal, u64_to_decimal};

verus! {

/// The state right after set-up with `msg`: the configuration as given, no
/// auction, nobody verified, nobody barred.
pub open spec fn initial_state(msg: InstantiateMsg) -> StateView {
    StateView {
        config: ConfigView {
            admin: msg.admin@,
            fee_bps: msg.fee_bps,
            fee_address: msg.fee_address@,
            token_denom: msg.token_denom@,
            require_kyc: match msg.require_kyc {
                Some(b) => b,
                None => false,
            },
        },
        registry: RegistryView { first_id: msg.first_auction_id, auctions: Seq::empty() },
        kyc: KycRegistryView { records: Map::empty(), blacklist: Set::empty() },
    }
}

/// The attributes of a set-up.
pub open spec fn instantiate_attributes(admin: Seq<char>) -> Seq<(Seq<char>, Seq<char>)> {
    seq![("action"@, "instantiate"@), ("admin"@, admin)]
}

/// Sets the engine up. Refused with `InvalidFeeRate` exactly when the fee
/// rate is above 100 %.
pub fn instantiate(_env: &Env, _info: &MessageInfo, msg: InstantiateMsg) -> (r: Result<
    (State, Response),
    ContractError,
>)
    ensures
        match r {
            Ok((state, resp)) => {
                &&& msg.fee_bps <= MAX_FEE_BPS
                &&& state.wf()
                &&& state@ == initial_state(msg)
                &&& resp@.messages == Seq::<TransferView>::empty()
                &&& resp@.attributes == instantiate_attributes(msg.admin@)
            },
            Err(e) => msg.fee_bps > MAX_FEE_BPS && e == ContractError::InvalidFeeRate,
        },
{
    if msg.fee_bps > MAX_FEE_BPS {
        return Err(ContractError::InvalidFeeRate);
    }
    let mut resp = Response::new();
    resp.add_attribute("action", "instantiate".to_owned());
    resp.add_attribute("admin", msg.admin.clone());
    assert(resp@.attributes =~= instantiate_attributes(msg.admin@));
    let require_kyc = match msg.require_kyc {
        Some(b) => b,
        None => false,
    };
    let state = State {
        config: Config {
            admin: msg.admin,
            fee_bps: msg.fee_bps,
            fee_address: msg.fee_address,
            token_denom: msg.token_denom,
            require_kyc,
        },
        registry: AuctionRegistry::new(msg.first_auction_id),
        kyc: KycRegistry::new(),
    };
    assert(state@.registry.auctions =~= Seq::empty());
    Ok((state, resp))
}

/// Why a listing is refused, if it is: the access gate turns the seller
/// away, or the end time or the next id does not fit in 64 bits.
pub open spec fn create_refusal(s: StateView, now: u64, sender: Seq<char>, duration: u64)
    -> Option<ContractError> {
    if s.gate_refusal(sender, now) is Some {
        s.gate_refusal(sender, now)
    } else if now + duration > u64::MAX || s.registry.next_id() >= u64::MAX {
        Some(ContractError::Overflow)
    } else {
        None
    }
}

/// A fresh auction: active, without a bid, ending `duration` seconds after
/// `now`.
pub open spec fn new_auction(
    seller: Seq<char>,
    item_id: Seq<char>,
    description: Seq<char>,
    starting_price: u128,
    reserve_price: Option<u128>,
    buy_now_price: Option<u128>,
    now: u64,
    duration: u64,
) -> AuctionView {
    AuctionView {
        seller,
        item_id,
        description,
        starting_price,
        reserve_price,
        buy_now_price,
        end_time: (now + duration) as u64,
        bids: Seq::empty(),
        highest_bid: None,
        status: AuctionStatus::Active,
        created_at: now,
    }
}

/// The attributes of a listing.
pub open spec fn create_attributes(id: u64, seller: Seq<char>) -> Seq<(Seq<char>, Seq<char>)> {
    seq![("action"@, "create_auction"@), ("auction_id"@, decimal(id as nat)), ("seller"@, seller)]
}

/// The create command as a function of the state: `sender` lists an item.
/// The new auction gets the next unused id.
pub open spec fn create_auction(
    s: StateView,
    now: u64,
    sender: Seq<char>,
    item_id: Seq<char>,
    description: Seq<char>,
    starting_price: u128,
    reserve_price: Option<u128>,
    buy_now_price: Option<u128>,
    duration: u64,
) -> Outcome {
    match create_refusal(s, now, sender, duration) {
        Some(e) => Outcome { state: s, result: Err(e) },
        None => Outcome {
            state: StateView {
                registry: s.registry.with_new(
                    new_auction(
                        sender,
                        item_id,
                        description,
                        starting_price,
                        reserve_price,
                        buy_now_price,
                        now,
                        duration,
                    ),
                ),
                ..s
            },
            result: Ok(
                ResponseView {
                    messages: Seq::empty(),
                    attributes: create_attributes(s.registry.next_id() as u64, sender),
                },
            ),
        },
    }
}

/// Lists an item for the sender. The auction is active from the current
/// time for `duration` seconds and is registered under the next unused id,
/// which the response names.
pub fn execute_create_auction(
    state: &mut State,
    env: &Env,
    info: &MessageInfo,
    item_id: String,
    description: String,
    starting_price: u128,
    reserve_price: Option<u128>,
    buy_now_price: Option<u128>,
    duration: u64,
) -> (r: Result<Response, ContractError>)
    requires
        old(state).wf(),
    ensures
        final(state).wf(),
        final(state)@ == create_auction(
            old(state)@,
            env.time,
            info.sender@,
            item_id@,
            description@,
            starting_price,
            reserve_price,
            buy_now_price,
            duration,
        ).state,
        result_view(r) == create_auction(
            old(state)@,
            env.time,
            info.sender@,
            item_id@,
            description@,
            starting_price,
            reserve_price,
            buy_now_price,
            duration,
        ).result,
{
    match state.check_gate(&info.sender, env.time) {
        Ok(_) => {},
        Err(e) => {
            return Err(e);
        },
    }
    let end_time = match env.time.checked_add(duration) {
        Some(t) => t,
        None => {
            return Err(ContractError::Overflow);
        },
    };
    let auction = Auction {
        seller: info.sender.clone(),
        item_id,
        description,
        starting_price,
        reserve_price,
        buy_now_price,
        end_time,
        bids: Vec::new(),
        highest_bid: None,
        status: AuctionStatus::Active,
        created_at: env.time,
    };
    assert(auction@.bids =~= Seq::<BidView>::empty());
    let id = match state.registry.create(auction) {
        Some(id) => id,
        None => {
            return Err(ContractError::Overflow);
        },
    };
    let mut resp = Response::new();
    resp.add_attribute("action", "create_auction".to_owned());
    resp.add_attribute("auction_id", u64_to_decimal(id));
    resp.add_attribute("seller", info.sender.clone());
    assert(resp@.attributes =~= create_attributes(id, info.sender@));
    Ok(resp)
}

/// A command as a function of the state: what `msg` does when `sender`
/// sends it at `now` with `sent` in the settlement denomination.
pub open spec fn dispatch(s: StateView, now: u64, sender: Seq<char>, sent: u128, msg: ExecuteMsg)
    -> Outcome {
    match msg {
        ExecuteMsg::CreateAuction {
            item_id,
            description,
            starting_price,
            reserve_price,
            buy_now_price,
            duration,
        } => create_auction(
            s,
            now,
            sender,
            item_id@,
            description@,
            starting_price,
            reserve_price,
            buy_now_price,
            duration,
        ),
        ExecuteMsg::PlaceBid { auction_id, amount } => place_bid(
            s,
            now,
            sender,
            sent,
            auction_id,
            amount,
        ),
        ExecuteMsg::BuyNow { auction_id } => buy_now(s, now, sender, sent, auction_id),
        ExecuteMsg::CloseAuction { auction_id } => close(s, now, sender, auction_id),
        ExecuteMsg::ReleaseFunds { auction_id } => settle(s, sender, auction_id),
        ExecuteMsg::VerifyUser { address, level, expires_in_days } => verify(
            s,
            now,
            sender,
            address@,
            level,
            expires_in_days,
        ),
        ExecuteMsg::RevokeVerification { address } => revoke(s, sender, address@),
        ExecuteMsg::Blacklist { address } => blacklist(s, sender, address@),
    }
}

/// Carries out one command. The whole effect is that of `dispatch`: the new
/// state, and either the response or the refusal.
pub fn execute(state: &mut State, env: &Env, info: &MessageInfo, msg: ExecuteMsg) -> (r: Result<
    Response,
    ContractError,
>)
    requires
        old(state).wf(),
    ensures
        final(state).wf(),
        final(state)@ == dispatch(
            old(state)@,
            env.time,
            info.sender@,
            spec_tendered(info.funds@, old(state)@.config.token_denom),
            msg,
        ).state,
        result_view(r) == dispatch(
            old(state)@,
            env.time,
            info.sender@,
            spec_tendered(info.funds@, old(state)@.config.token_denom),
            msg,
        ).result,
{
    match msg {
        ExecuteMsg::CreateAuction {
            item_id,
            description,
            starting_price,
            reserve_price,
            buy_now_price,
            duration,
        } => execute_create_auction(
            state,
            env,
            info,
            item_id,
            description,
            starting_price,
            reserve_price,
            buy_now_price,
            duration,
        ),
        ExecuteMsg::PlaceBid { auction_id, amount } => execute_place_bid(
            state,
            env,
            info,
            auction_id,
            amount,
        ),
        ExecuteMsg::BuyNow { auction_id } => execute_buy_it_now(state, env, info, auction_id),
        ExecuteMsg::CloseAuction { auction_id } => execute_close_auction(
            state,
            env,
            info,
            auction_id,
        ),
        ExecuteMsg::ReleaseFunds { auction_id } => execute_settle_auction(state, info, auction_id),
        ExecuteMsg::VerifyUser { address, level, expires_in_days } => verify_kyc(
            state,
            env,
            info,
            address,
            level,
            expires_in_days,
        ),
        ExecuteMsg::RevokeVerification { address } => execute_revoke_verification(
            state,
            info,
            address,
        ),
        ExecuteMsg::Blacklist { address } => blacklist_address(state, info, address),
    }
}

} // verus!
