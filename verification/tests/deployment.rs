use phoenix_escrow::contract::{execute, instantiate};
use phoenix_escrow::engine::{Env, MessageInfo};
use phoenix_escrow::msg::{ExecuteMsg, InstantiateMsg};
use phoenix_escrow::response::Coin;

fn mock_env() -> Env {
    Env { time: 1_571_797_419 }
}

fn coins(amount: u128, denom: &str) -> Vec<Coin> {
    vec![Coin { denom: denom.to_string(), amount }]
}

fn mock_info(sender: &str, funds: &[Coin]) -> MessageInfo {
    MessageInfo { sender: sender.to_string(), funds: funds.to_vec() }
}

fn setup_msg() -> InstantiateMsg {
    InstantiateMsg {
        admin: "admin".to_string(),
        fee_bps: 0,
        fee_address: "admin".to_string(),
        token_denom: "ucore".to_string(),
        require_kyc: None,
        first_auction_id: 0,
    }
}

#[test]
fn contract_test_instantiate() {
    let env = mock_env();
    let info = mock_info("creator", &coins(1000, "ucore"));

    let (_state, res) = instantiate(&env, &info, setup_msg()).unwrap();
    assert_eq!(0, res.messages.len());
}

#[test]
fn contract_test_create_auction() {
    let env = mock_env();

    let instantiate_info = mock_info("admin", &[]);
    let (mut state, _) = instantiate(&env, &instantiate_info, setup_msg()).unwrap();

    let info = mock_info("seller", &[]);
    let msg = ExecuteMsg::CreateAuction {
        item_id: "test-item".to_string(),
        description: format!("Test auction: {} {}, weight {}", "Gold", "Bar", 100),
        starting_price: 1000,
        reserve_price: Some(1500),
        buy_now_price: Some(2000),
        duration: 24 * 3600,
    };

    let res = execute(&mut state, &env, &info, msg).unwrap();
    assert_eq!(res.attributes[0].value, "create_auction");
}
