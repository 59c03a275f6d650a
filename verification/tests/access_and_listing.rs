use phoenix_escrow::contract::{execute, instantiate};
use phoenix_escrow::engine::{Env, MessageInfo, State};
use phoenix_escrow::error::ContractError;
use phoenix_escrow::kyc::{
    blacklist_address,
    execute_revoke_verification,
    is_kyc_verified,
    verify_kyc,
    KycRecord,
    KycRegistry,
};
use phoenix_escrow::msg::{ExecuteMsg, InstantiateMsg, QueryMsg, QueryResponse};
use phoenix_escrow::query::{
    list_auctions, query, query_completed_auctions, query_config, query_list_auctions,
};
use phoenix_escrow::registry::{next_auction_id, AuctionRegistry};
use phoenix_escrow::response::{funds_in_denom, tendered, Attribute, Coin};
use phoenix_escrow::state::{Auction, AuctionStatus, Bid};
use phoenix_escrow::text::{u128_to_decimal, u64_to_decimal};

const DENOM: &str = "utestcore";
const START: u64 = 1_000_000;
const DAY: u64 = 86_400;

fn env(time: u64) -> Env {
    Env { time }
}

fn plain(sender: &str) -> MessageInfo {
    MessageInfo { sender: sender.to_string(), funds: vec![] }
}

fn paying(sender: &str, amount: u128) -> MessageInfo {
    MessageInfo {
        sender: sender.to_string(),
        funds: vec![Coin { denom: DENOM.to_string(), amount }],
    }
}

fn engine(require_kyc: bool) -> State {
    let msg = InstantiateMsg {
        admin: "admin".to_string(),
        fee_bps: 110,
        fee_address: "pool".to_string(),
        token_denom: DENOM.to_string(),
        require_kyc: Some(require_kyc),
        first_auction_id: 1,
    };
    instantiate(&env(START), &plain("admin"), msg).unwrap().0
}

fn verify(state: &mut State, now: u64, address: &str, level: u8, days: Option<u64>) {
    verify_kyc(state, &env(now), &plain("admin"), address.to_string(), level, days).unwrap();
}

fn create(state: &mut State, seller: &str) -> Result<(), ContractError> {
    execute(
        state,
        &env(START),
        &plain(seller),
        ExecuteMsg::CreateAuction {
            item_id: "item".to_string(),
            description: String::new(),
            starting_price: 10,
            reserve_price: None,
            buy_now_price: Some(100),
            duration: 30 * DAY,
        },
    )
    .map(|_| ())
}

fn bid_at(state: &mut State, now: u64, bidder: &str, amount: u128) -> Result<(), ContractError> {
    execute(
        state,
        &env(now),
        &paying(bidder, amount),
        ExecuteMsg::PlaceBid { auction_id: 1, amount },
    )
    .map(|_| ())
}

fn ids(
    state: &State,
    start_after: Option<u64>,
    limit: Option<u32>,
    status: Option<AuctionStatus>,
) -> Vec<u64> {
    query_list_auctions(state, start_after, limit, status).auctions.iter().map(|a| a.id).collect()
}

#[test]
fn only_the_administrator_manages_the_access_gate() {
    let mut state = engine(true);
    let before = state.clone();
    for who in ["seller", "pool", ""] {
        assert_eq!(
            verify_kyc(&mut state, &env(START), &plain(who), "alice".to_string(), 1, None),
            Err(ContractError::Unauthorized)
        );
        assert_eq!(
            execute_revoke_verification(&mut state, &plain(who), "alice".to_string()),
            Err(ContractError::Unauthorized)
        );
        assert_eq!(
            blacklist_address(&mut state, &plain(who), "alice".to_string()),
            Err(ContractError::Unauthorized)
        );
    }
    assert_eq!(state, before);
}

#[test]
fn verification_writes_one_record_per_address() {
    let mut state = engine(true);
    let res = verify_kyc(&mut state, &env(START), &plain("admin"), "alice".to_string(), 2, Some(3))
        .unwrap();
    assert_eq!(
        res.attributes,
        vec![
            Attribute { key: "action".to_string(), value: "verify_kyc".to_string() },
            Attribute { key: "address".to_string(), value: "alice".to_string() },
            Attribute { key: "level".to_string(), value: "2".to_string() },
            Attribute { key: "verified_by".to_string(), value: "admin".to_string() },
        ]
    );
    assert_eq!(
        state.kyc.records,
        vec![KycRecord {
            address: "alice".to_string(),
            verified: true,
            level: 2,
            verified_at: START,
            verified_by: "admin".to_string(),
            expires_at: Some(START + 3 * DAY),
        }]
    );
    verify(&mut state, START + 7, "bob", 1, None);
    verify(&mut state, START + 9, "alice", 5, None);
    assert_eq!(state.kyc.records.len(), 2);
    assert_eq!(
        state.kyc.records[0],
        KycRecord {
            address: "alice".to_string(),
            verified: true,
            level: 5,
            verified_at: START + 9,
            verified_by: "admin".to_string(),
            expires_at: None,
        }
    );
    assert_eq!(state.kyc.records[1].address, "bob");
}

#[test]
fn revocation_deletes_the_record() {
    let mut state = engine(true);
    verify(&mut state, START, "seller", 1, None);
    verify(&mut state, START, "alice", 1, None);
    verify(&mut state, START, "bob", 1, None);
    create(&mut state, "seller").unwrap();
    assert_eq!(bid_at(&mut state, START, "alice", 10), Ok(()));
    execute_revoke_verification(&mut state, &plain("admin"), "alice".to_string()).unwrap();
    assert_eq!(state.kyc.records.len(), 2);
    assert_eq!(bid_at(&mut state, START, "alice", 20), Err(ContractError::KycRequired));
    assert_eq!(bid_at(&mut state, START, "bob", 20), Ok(()));
    let res =
        execute_revoke_verification(&mut state, &plain("admin"), "nobody".to_string()).unwrap();
    assert_eq!(res.attributes[0].value, "revoke_verification");
    assert_eq!(state.kyc.records.len(), 2);
}

#[test]
fn blacklist_beats_verification() {
    let mut state = engine(true);
    verify(&mut state, START, "seller", 1, None);
    verify(&mut state, START, "alice", 9, None);
    create(&mut state, "seller").unwrap();
    blacklist_address(&mut state, &plain("admin"), "alice".to_string()).unwrap();
    blacklist_address(&mut state, &plain("admin"), "alice".to_string()).unwrap();
    blacklist_address(&mut state, &plain("admin"), "ghost".to_string()).unwrap();
    assert_eq!(state.kyc.blacklist, vec!["alice".to_string(), "ghost".to_string()]);
    assert_eq!(bid_at(&mut state, START, "alice", 10), Err(ContractError::Blacklisted));
    assert_eq!(bid_at(&mut state, START, "ghost", 10), Err(ContractError::Blacklisted));
    assert_eq!(
        execute(
            &mut state,
            &env(START),
            &paying("alice", 100),
            ExecuteMsg::BuyNow { auction_id: 1 }
        ),
        Err(ContractError::Blacklisted)
    );
    assert_eq!(create(&mut state, "alice"), Err(ContractError::Blacklisted));
    verify(&mut state, START, "alice", 9, None);
    assert_eq!(bid_at(&mut state, START, "alice", 10), Err(ContractError::Blacklisted));
}

#[test]
fn blacklist_is_not_consulted_while_the_gate_is_off() {
    let mut state = engine(false);
    blacklist_address(&mut state, &plain("admin"), "alice".to_string()).unwrap();
    create(&mut state, "alice").unwrap();
    assert_eq!(bid_at(&mut state, START, "alice", 10), Ok(()));
}

#[test]
fn record_expires_after_its_last_second() {
    let mut state = engine(true);
    verify(&mut state, START, "seller", 1, None);
    verify(&mut state, START, "alice", 1, Some(2));
    create(&mut state, "seller").unwrap();
    assert_eq!(bid_at(&mut state, START + 2 * DAY, "alice", 10), Ok(()));
    let expired = Err(ContractError::KycExpired);
    assert_eq!(bid_at(&mut state, START + 2 * DAY + 1, "alice", 20), expired);
    verify(&mut state, START + 2 * DAY + 1, "alice", 1, Some(0));
    assert_eq!(bid_at(&mut state, START + 2 * DAY + 1, "alice", 20), Ok(()));
    assert_eq!(bid_at(&mut state, START + 2 * DAY + 2, "alice", 30), expired);
}

#[test]
fn level_below_the_required_one_is_refused() {
    let mut state = engine(true);
    verify(&mut state, START, "seller", 1, None);
    verify(&mut state, START, "alice", 0, None);
    create(&mut state, "seller").unwrap();
    assert_eq!(
        bid_at(&mut state, START, "alice", 10),
        Err(ContractError::InsufficientKycLevel { required: 1, has: 0 })
    );
    verify(&mut state, START, "alice", 1, None);
    assert_eq!(bid_at(&mut state, START, "alice", 10), Ok(()));
    assert_eq!(
        is_kyc_verified(&state, &"alice".to_string(), 2, START),
        Err(ContractError::InsufficientKycLevel { required: 2, has: 1 })
    );
}

#[test]
fn expiry_is_checked_before_the_level() {
    let mut state = engine(true);
    verify(&mut state, START, "alice", 0, Some(1));
    assert_eq!(
        is_kyc_verified(&state, &"alice".to_string(), 3, START + DAY + 1),
        Err(ContractError::KycExpired)
    );
    blacklist_address(&mut state, &plain("admin"), "alice".to_string()).unwrap();
    assert_eq!(
        is_kyc_verified(&state, &"alice".to_string(), 3, START + DAY + 1),
        Err(ContractError::Blacklisted)
    );
}

#[test]
fn lookup_fails_for_an_address_without_a_record() {
    let mut state = engine(true);
    let required = Err(ContractError::KycRequired);
    assert_eq!(is_kyc_verified(&state, &"alice".to_string(), 1, START), required);
    assert_eq!(is_kyc_verified(&state, &"alice".to_string(), 0, 0), required);
    verify(&mut state, START, "alice", 1, None);
    assert_eq!(is_kyc_verified(&state, &"alice".to_string(), 1, START), Ok(true));
    assert_eq!(is_kyc_verified(&state, &"alice".to_string(), 0, u64::MAX), Ok(true));
    assert_eq!(is_kyc_verified(&state, &"Alice".to_string(), 1, START), required);
    let before = state.clone();
    let _ = is_kyc_verified(&state, &"bob".to_string(), 1, START);
    assert_eq!(state, before);
}

#[test]
fn verified_flag_is_read_last() {
    let mut state = engine(true);
    verify(&mut state, START, "seller", 1, None);
    verify(&mut state, START, "alice", 2, Some(1));
    create(&mut state, "seller").unwrap();
    state.kyc.records[1].verified = false;
    assert!(state.is_well_formed());
    let alice = "alice".to_string();

    assert_eq!(is_kyc_verified(&state, &alice, 2, START + DAY), Ok(false));
    assert_eq!(is_kyc_verified(&state, &alice, 0, START), Ok(false));
    assert_eq!(
        is_kyc_verified(&state, &alice, 3, START + DAY),
        Err(ContractError::InsufficientKycLevel { required: 3, has: 2 })
    );
    assert_eq!(is_kyc_verified(&state, &alice, 2, START + DAY + 1), Err(ContractError::KycExpired));
    assert_eq!(is_kyc_verified(&state, &alice, 3, START + DAY + 1), Err(ContractError::KycExpired));

    assert_eq!(state.kyc.authorize(&alice, 2, START + DAY), Err(ContractError::KycRequired));
    assert_eq!(
        state.kyc.authorize(&alice, 3, START + DAY),
        Err(ContractError::InsufficientKycLevel { required: 3, has: 2 })
    );
    assert_eq!(state.kyc.authorize(&alice, 3, START + DAY + 1), Err(ContractError::KycExpired));
    let nobody = "nobody".to_string();
    assert_eq!(state.kyc.authorize(&nobody, 0, START), Err(ContractError::KycRequired));

    assert_eq!(bid_at(&mut state, START, "alice", 10), Err(ContractError::KycRequired));
    assert_eq!(bid_at(&mut state, START + DAY + 1, "alice", 10), Err(ContractError::KycExpired));
    state.kyc.records[1].verified = true;
    assert_eq!(is_kyc_verified(&state, &alice, 2, START + DAY), Ok(true));
    assert_eq!(state.kyc.authorize(&alice, 2, START + DAY), Ok(()));
    assert_eq!(bid_at(&mut state, START + DAY, "alice", 10), Ok(()));
}

#[test]
fn record_counts_through_its_last_second_and_at_its_exact_level() {
    let mut state = engine(true);
    verify(&mut state, START, "alice", 2, Some(1));
    let alice = "alice".to_string();
    assert_eq!(is_kyc_verified(&state, &alice, 2, START + DAY), Ok(true));
    assert_eq!(is_kyc_verified(&state, &alice, 2, START + DAY + 1), Err(ContractError::KycExpired));
    assert_eq!(
        is_kyc_verified(&state, &alice, 3, START + DAY),
        Err(ContractError::InsufficientKycLevel { required: 3, has: 2 })
    );
    verify(&mut state, START, "alice", 2, None);
    assert_eq!(is_kyc_verified(&state, &alice, 2, u64::MAX), Ok(true));
}

#[test]
fn verified_query_follows_the_access_check() {
    let mut state = engine(true);
    let ask = |state: &State, now: u64, address: &str| match query(
        state,
        &env(now),
        QueryMsg::IsVerified { address: address.to_string() },
    )
    .unwrap()
    {
        QueryResponse::Verified(b) => b,
        other => panic!("unexpected answer {:?}", other),
    };
    assert!(!ask(&state, START, "alice"));
    verify(&mut state, START, "alice", 0, Some(1));
    assert!(ask(&state, START + DAY, "alice"));
    assert!(!ask(&state, START + DAY + 1, "alice"));
    blacklist_address(&mut state, &plain("admin"), "alice".to_string()).unwrap();
    assert!(!ask(&state, START, "alice"));
}

#[test]
fn registry_with_two_records_for_one_address_is_not_well_formed() {
    let record = |address: &str| KycRecord {
        address: address.to_string(),
        verified: true,
        level: 1,
        verified_at: 0,
        verified_by: "admin".to_string(),
        expires_at: None,
    };
    let mut kyc = KycRegistry::new();
    assert!(kyc.is_well_formed());
    kyc.records = vec![record("a"), record("b"), record("c")];
    assert!(kyc.is_well_formed());
    kyc.records = vec![record("a"), record("b"), record("a")];
    assert!(!kyc.is_well_formed());
    kyc.records = vec![record("a"), record("b"), record("b")];
    assert!(!kyc.is_well_formed());
}

#[test]
fn auction_whose_highest_bid_is_not_its_last_bid_is_not_well_formed() {
    let bid = |amount| Bid { bidder: "b".to_string(), amount, timestamp: 1 };
    let mut a = Auction {
        seller: "s".to_string(),
        item_id: String::new(),
        description: String::new(),
        starting_price: 1,
        reserve_price: None,
        buy_now_price: None,
        end_time: 10,
        bids: vec![],
        highest_bid: None,
        status: AuctionStatus::Active,
        created_at: 0,
    };
    assert!(a.is_well_formed());
    a.highest_bid = Some(bid(5));
    assert!(!a.is_well_formed());
    a.bids = vec![bid(4), bid(5)];
    assert!(a.is_well_formed());
    a.bids = vec![bid(5), bid(4)];
    assert!(!a.is_well_formed());
    a.highest_bid = None;
    assert!(!a.is_well_formed());

    let mut state = engine(false);
    assert!(state.is_well_formed());
    state.registry.auctions.push(a);
    assert!(!state.is_well_formed());
    state.registry.auctions.clear();
    state.config.fee_bps = 10_001;
    assert!(!state.is_well_formed());
    state.config.fee_bps = 10_000;
    state.registry.first_id = u64::MAX;
    assert!(state.is_well_formed());
}

#[test]
fn ids_are_handed_out_in_ascending_order() {
    let mut registry = AuctionRegistry::new(5);
    assert_eq!(next_auction_id(&registry), Some(5));
    let fresh = || Auction {
        seller: "s".to_string(),
        item_id: String::new(),
        description: String::new(),
        starting_price: 1,
        reserve_price: None,
        buy_now_price: None,
        end_time: 10,
        bids: vec![],
        highest_bid: None,
        status: AuctionStatus::Active,
        created_at: 0,
    };
    assert_eq!(registry.create(fresh()), Some(5));
    assert_eq!(registry.create(fresh()), Some(6));
    assert_eq!(next_auction_id(&registry), Some(7));
    assert_eq!(registry.index_of(4), None);
    assert_eq!(registry.index_of(5), Some(0));
    assert_eq!(registry.index_of(6), Some(1));
    assert_eq!(registry.index_of(7), None);
    let mut changed = registry.load(6).unwrap();
    changed.status = AuctionStatus::Cancelled;
    assert_eq!(registry.save(6, changed.clone()), Ok(()));
    assert_eq!(registry.load(6), Ok(changed.clone()));
    assert_eq!(registry.load(5).unwrap().status, AuctionStatus::Active);
    assert_eq!(registry.save(7, changed), Err(ContractError::AuctionNotFound));
    assert_eq!(registry.load(7), Err(ContractError::AuctionNotFound));

    let mut last = AuctionRegistry::new(u64::MAX);
    assert_eq!(next_auction_id(&last), None);
    assert_eq!(last.create(fresh()), None);
    assert!(last.auctions.is_empty());
}

#[test]
fn page_is_capped_at_the_largest_page() {
    let mut state = engine(false);
    for _ in 0..120 {
        create(&mut state, "seller").unwrap();
    }
    assert_eq!(ids(&state, None, None, None), (1..=50).collect::<Vec<u64>>());
    assert_eq!(ids(&state, None, Some(100), None), (1..=100).collect::<Vec<u64>>());
    assert_eq!(ids(&state, None, Some(101), None), (1..=100).collect::<Vec<u64>>());
    assert_eq!(ids(&state, None, Some(u32::MAX), None), (1..=100).collect::<Vec<u64>>());
    assert_eq!(ids(&state, None, Some(0), None), Vec::<u64>::new());
    assert_eq!(ids(&state, Some(100), Some(100), None), (101..=120).collect::<Vec<u64>>());
    assert_eq!(ids(&state, Some(0), Some(3), None), vec![1, 2, 3]);
    assert_eq!(
        list_auctions(&state, Some(117), None).auctions,
        state.registry.auctions[117..].to_vec()
    );
    assert_eq!(list_auctions(&state, None, Some(2)).auctions.len(), 2);
    assert_eq!(ids(&state, Some(118), None, None), vec![119, 120]);
    assert_eq!(ids(&state, Some(120), None, None), Vec::<u64>::new());
    assert_eq!(ids(&state, Some(u64::MAX), None, None), Vec::<u64>::new());
}

#[test]
fn status_filter_runs_before_the_page_is_cut() {
    let mut state = engine(false);
    for _ in 0..10 {
        create(&mut state, "seller").unwrap();
    }
    for id in [2u64, 3, 7, 9, 10] {
        let close = ExecuteMsg::CloseAuction { auction_id: id };
        execute(&mut state, &env(START), &plain("seller"), close).unwrap();
    }
    let cancelled = Some(AuctionStatus::Cancelled);
    assert_eq!(ids(&state, None, Some(2), cancelled), vec![2, 3]);
    assert_eq!(ids(&state, Some(3), Some(2), cancelled), vec![7, 9]);
    assert_eq!(ids(&state, Some(9), Some(2), cancelled), vec![10]);
    assert_eq!(ids(&state, Some(10), Some(2), cancelled), Vec::<u64>::new());
    assert_eq!(ids(&state, None, Some(4), Some(AuctionStatus::Active)), vec![1, 4, 5, 6]);
    assert_eq!(ids(&state, None, Some(10), Some(AuctionStatus::Active)), vec![1, 4, 5, 6, 8]);
    assert_eq!(ids(&state, Some(4), Some(10), Some(AuctionStatus::Active)), vec![5, 6, 8]);
    assert_eq!(ids(&state, None, None, Some(AuctionStatus::Sold)), Vec::<u64>::new());
    let page = query_list_auctions(&state, Some(6), Some(1), cancelled).auctions;
    assert_eq!(page.len(), 1);
    assert_eq!(page[0].id, 7);
    assert_eq!(page[0].auction, state.registry.auctions[6]);
    match query(
        &state,
        &env(START),
        QueryMsg::ListAuctions { start_after: Some(3), limit: Some(2), status: cancelled },
    )
    .unwrap()
    {
        QueryResponse::Auctions(l) => {
            assert_eq!(l.auctions.iter().map(|a| a.id).collect::<Vec<u64>>(), vec![7, 9])
        }
        other => panic!("unexpected answer {:?}", other),
    }
}

#[test]
fn completed_auctions_are_the_settled_ones() {
    let mut state = engine(false);
    for _ in 0..4 {
        create(&mut state, "seller").unwrap();
    }
    for id in [2u64, 4] {
        let buy = ExecuteMsg::BuyNow { auction_id: id };
        execute(&mut state, &env(START), &paying("buyer", 100), buy).unwrap();
        let release = ExecuteMsg::ReleaseFunds { auction_id: id };
        execute(&mut state, &env(START), &plain("seller"), release).unwrap();
    }
    let done: Vec<u64> =
        query_completed_auctions(&state, None, None).auctions.iter().map(|a| a.id).collect();
    assert_eq!(done, vec![2, 4]);
    let done: Vec<u64> =
        query_completed_auctions(&state, Some(2), Some(5)).auctions.iter().map(|a| a.id).collect();
    assert_eq!(done, vec![4]);
}

#[test]
fn configuration_is_reported_as_set_up() {
    let state = engine(true);
    let c = query_config(&state);
    assert_eq!(c.admin, "admin");
    assert_eq!(c.fee_bps, 110);
    assert_eq!(c.fee_address, "pool");
    assert_eq!(c.token_denom, DENOM);
    assert_eq!(c.require_kyc, true);
}

#[test]
fn funds_count_in_the_settlement_denomination_only() {
    let funds = vec![
        Coin { denom: "a".to_string(), amount: 1 },
        Coin { denom: "b".to_string(), amount: 2 },
        Coin { denom: "a".to_string(), amount: 3 },
    ];
    assert_eq!(funds_in_denom(&funds, &"a".to_string()), Some(1));
    assert_eq!(funds_in_denom(&funds, &"b".to_string()), Some(2));
    assert_eq!(funds_in_denom(&funds, &"c".to_string()), None);
    assert_eq!(funds_in_denom(&vec![], &"a".to_string()), None);
    assert_eq!(tendered(&funds, &"b".to_string()), 2);
    assert_eq!(tendered(&funds, &"c".to_string()), 0);
}

#[test]
fn numbers_are_written_in_decimal() {
    assert_eq!(u64_to_decimal(0), "0");
    assert_eq!(u64_to_decimal(7), "7");
    assert_eq!(u64_to_decimal(10), "10");
    assert_eq!(u64_to_decimal(1_234_567_890), "1234567890");
    assert_eq!(u64_to_decimal(u64::MAX), "18446744073709551615");
    assert_eq!(u128_to_decimal(100_000), "100000");
    assert_eq!(u128_to_decimal(u128::MAX), "340282366920938463463374607431768211455");
}
