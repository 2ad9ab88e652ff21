use nois_payment::addr::Addr;
use nois_payment::contract::{execute, instantiate, query};
use nois_payment::error::ContractError;
use nois_payment::msg::{
    ConfigResponse, ExecuteMsg, InstantiateMsg, NoisSinkExecuteMsg, QueryMsg, QueryResponse,
};
use nois_payment::state::PaymentState;
use nois_payment::types::{Attribute, Coin, MessageInfo, CosmosMsg};

const NOIS_SINK: &str = "sink";
const NOIS_COMMUNITY_POOL: &str = "community_pool";
const NOIS_GATEWAY: &str = "nois-gateway";

fn mock_info(sender: &str, funds: Vec<Coin>) -> MessageInfo {
    MessageInfo {
        sender: Addr::unchecked(sender.to_string()),
        funds,
    }
}

fn instantiated_state() -> PaymentState {
    let mut state = PaymentState::new();
    let msg = InstantiateMsg {
        nois_sink: NOIS_SINK.to_string(),
        nois_com_pool_addr: NOIS_COMMUNITY_POOL.to_string(),
    };
    instantiate(&mut state, msg).unwrap();
    state
}

#[test]
fn instantiate_works() {
    let mut state = PaymentState::new();
    let msg = InstantiateMsg {
        nois_sink: NOIS_SINK.to_string(),
        nois_com_pool_addr: NOIS_COMMUNITY_POOL.to_string(),
    };
    let res = instantiate(&mut state, msg).unwrap();
    assert_eq!(0, res.messages.len());
    let QueryResponse::Config(config) = query(&state, QueryMsg::Config {});
    assert_eq!(
        config,
        ConfigResponse {
            community_pool: Addr::unchecked(NOIS_COMMUNITY_POOL.to_string()),
            sink: Addr::unchecked(NOIS_SINK.to_string())
        }
    );
}

#[test]
fn instantiate_rejects_invalid_sink_address() {
    // Two characters is below the minimum the host validator accepts.
    let mut state = PaymentState::new();
    let msg = InstantiateMsg {
        nois_sink: "ab".to_string(),
        nois_com_pool_addr: NOIS_COMMUNITY_POOL.to_string(),
    };
    let err = instantiate(&mut state, msg).unwrap_err();
    assert!(matches!(err, ContractError::InvalidAddress));
}

#[test]
fn instantiate_rejects_invalid_community_pool_address() {
    let mut state = PaymentState::new();
    let msg = InstantiateMsg {
        nois_sink: NOIS_SINK.to_string(),
        nois_com_pool_addr: "UPPERCASE-POOL".to_string(),
    };
    let err = instantiate(&mut state, msg).unwrap_err();
    assert!(matches!(err, ContractError::InvalidAddress));
}

#[test]
fn instantiate_records_attributes() {
    let mut state = PaymentState::new();
    let msg = InstantiateMsg {
        nois_sink: NOIS_SINK.to_string(),
        nois_com_pool_addr: NOIS_COMMUNITY_POOL.to_string(),
    };
    let res = instantiate(&mut state, msg).unwrap();
    assert_eq!(
        res.attributes,
        vec![
            Attribute {
                key: "action".to_string(),
                value: "instantiate".to_string()
            },
            Attribute {
                key: "nois_sink".to_string(),
                value: NOIS_SINK.to_string()
            },
            Attribute {
                key: "nois_community_pool".to_string(),
                value: NOIS_COMMUNITY_POOL.to_string()
            },
        ]
    );
}

#[test]
fn cannot_send_funds() {
    let state = instantiated_state();

    let info = mock_info(NOIS_GATEWAY, vec![Coin::new(12345, "unoisx")]);
    let msg = ExecuteMsg::Pay {
        burn: 500_000,
        community_pool: 450_000,
        relayer: ("some-relayer".to_string(), 50_000),
    };

    let err = execute(&state, &info, msg).unwrap_err();
    assert!(matches!(err, ContractError::DontSendFunds));
}

#[test]
fn fund_send_works() {
    let state = instantiated_state();

    let info = mock_info(NOIS_GATEWAY, vec![]);
    let msg = ExecuteMsg::Pay {
        burn: 500_000,
        community_pool: 450_000,
        relayer: ("some-relayer".to_string(), 50_000),
    };

    let response = execute(&state, &info, msg).unwrap();
    assert_eq!(response.messages.len(), 3); // 3 because we send funds to 3 different addresses (relayer + com_pool + sink)
}

#[test]
fn pay_rejects_invalid_relayer_address() {
    let state = instantiated_state();

    let info = mock_info(NOIS_GATEWAY, vec![]);
    let msg = ExecuteMsg::Pay {
        burn: 500_000,
        community_pool: 450_000,
        relayer: ("RELAYER".to_string(), 50_000),
    };

    let err = execute(&state, &info, msg).unwrap_err();
    assert!(matches!(err, ContractError::InvalidAddress));
}

#[test]
fn pay_emits_exact_effects_and_attributes() {
    let state = instantiated_state();

    let info = mock_info(NOIS_GATEWAY, vec![]);
    let msg = ExecuteMsg::Pay {
        burn: 500_000,
        community_pool: 450_000,
        relayer: ("relayer-x".to_string(), 50_000),
    };

    let response = execute(&state, &info, msg).unwrap();
    assert_eq!(
        response.messages,
        vec![
            CosmosMsg::WasmExecute {
                contract_addr: NOIS_SINK.to_string(),
                msg: NoisSinkExecuteMsg::Burn {},
                funds: vec![Coin::new(500_000, "unois")],
            },
            CosmosMsg::BankSend {
                to_address: "relayer-x".to_string(),
                amount: vec![Coin::new(50_000, "unois")],
            },
            CosmosMsg::BankSend {
                to_address: NOIS_COMMUNITY_POOL.to_string(),
                amount: vec![Coin::new(450_000, "unois")],
            },
        ]
    );
    assert_eq!(
        response.attributes,
        vec![
            Attribute {
                key: "burnt_amount".to_string(),
                value: "500000".to_string()
            },
            Attribute {
                key: "relayer_incentive".to_string(),
                value: "50000".to_string()
            },
            Attribute {
                key: "relayer_address".to_string(),
                value: "relayer-x".to_string()
            },
            Attribute {
                key: "sent_to_community_pool".to_string(),
                value: "450000".to_string()
            },
        ]
    );
}

#[test]
fn pay_renders_zero_and_large_amounts() {
    let state = instantiated_state();

    let info = mock_info(NOIS_GATEWAY, vec![]);
    let msg = ExecuteMsg::Pay {
        burn: 0,
        community_pool: u128::MAX,
        relayer: ("relayer-x".to_string(), 7),
    };

    let response = execute(&state, &info, msg).unwrap();
    assert_eq!(response.attributes[0].value, "0");
    assert_eq!(response.attributes[1].value, "7");
    assert_eq!(
        response.attributes[3].value,
        "340282366920938463463374607431768211455"
    );
}

#[test]
fn query_is_repeatable() {
    let state = instantiated_state();
    let QueryResponse::Config(first) = query(&state, QueryMsg::Config {});
    let QueryResponse::Config(second) = query(&state, QueryMsg::Config {});
    assert_eq!(first, second);
}
