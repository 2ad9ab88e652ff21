//! The payment actor's handlers: instantiation, the `Pay` execution, and the
//! configuration query. Each handler is a function of the explicit state
//! handle and the message; effects are described, never performed.

use crate::addr::{valid_addr, validate_address, Addr};
use crate::error::ContractError;
use crate::msg::{
    ConfigResponse, ConfigResponseV, ExecuteMsg, ExecuteMsgV, InstantiateMsg, InstantiateMsgV,
    NoisSinkExecuteMsg, QueryMsg, QueryResponse,
};
use crate::num::{dec_str, u128_to_dec};
use crate::state::{Config, ConfigV, PaymentState};
use crate::types::{
    AttributeV, Coin, CoinV, CosmosMsg, CosmosMsgV, MessageInfo, MessageInfoV, Response, ResponseV,
};
use vstd::prelude::*;

verus! {

/// The single fixed denomination this actor transacts in.
pub open spec fn payment_denom() -> Seq<char> {
    "unois"@
}

/// A handler result, abstracted to views. Errors carry no data, so they are
/// kept as they are.
pub open spec fn result_view(r: Result<Response, ContractError>) -> Result<ResponseV, ContractError> {
    match r {
        Ok(resp) => Ok(resp@),
        Err(e) => Err(e),
    }
}

/// The attributes a successful instantiation records.
pub open spec fn instantiate_attributes(msg: InstantiateMsgV) -> Seq<AttributeV> {
    seq![
        AttributeV { key: "action"@, value: "instantiate"@ },
        AttributeV { key: "nois_sink"@, value: msg.nois_sink },
        AttributeV { key: "nois_community_pool"@, value: msg.nois_com_pool_addr },
    ]
}

/// What `instantiate` does: if both addresses pass host validation, the new
/// state holds exactly those two addresses and the call succeeds with no
/// effects; otherwise the state is left as it was and the call fails with
/// `InvalidAddress`.
pub open spec fn spec_instantiate(state: Option<ConfigV>, msg: InstantiateMsgV) -> (Option<
    ConfigV,
>, Result<ResponseV, ContractError>) {
    if valid_addr(msg.nois_sink) && valid_addr(msg.nois_com_pool_addr) {
        (
            Some(ConfigV { community_pool: msg.nois_com_pool_addr, sink: msg.nois_sink }),
            Ok(
                ResponseV {
                    messages: Seq::<CosmosMsgV>::empty(),
                    attributes: instantiate_attributes(msg),
                },
            ),
        )
    } else {
        (state, Err(ContractError::InvalidAddress))
    }
}

/// The three effects of a valid payment, in their fixed order: the burn
/// sub-call to the configured sink, the incentive transfer to the relayer,
/// and the transfer to the configured community pool, each carrying exactly
/// the requested amount of the payment denomination.
pub open spec fn pay_messages(
    config: ConfigV,
    burn: u128,
    community_pool: u128,
    relayer: (Seq<char>, u128),
) -> Seq<CosmosMsgV> {
    seq![
        CosmosMsgV::WasmExecute {
            contract_addr: config.sink,
            msg: NoisSinkExecuteMsg::Burn {},
            funds: seq![CoinV { denom: payment_denom(), amount: burn }],
        },
        CosmosMsgV::BankSend {
            to_address: relayer.0,
            amount: seq![CoinV { denom: payment_denom(), amount: relayer.1 }],
        },
        CosmosMsgV::BankSend {
            to_address: config.community_pool,
            amount: seq![CoinV { denom: payment_denom(), amount: community_pool }],
        },
    ]
}

/// The attributes a successful payment records: the burnt amount, the
/// relayer's incentive and address, and the amount sent to the community
/// pool, amounts rendered in decimal.
pub open spec fn pay_attributes(
    burn: u128,
    community_pool: u128,
    relayer: (Seq<char>, u128),
) -> Seq<AttributeV> {
    seq![
        AttributeV { key: "burnt_amount"@, value: dec_str(burn as nat) },
        AttributeV { key: "relayer_incentive"@, value: dec_str(relayer.1 as nat) },
        AttributeV { key: "relayer_address"@, value: relayer.0 },
        AttributeV { key: "sent_to_community_pool"@, value: dec_str(community_pool as nat) },
    ]
}

/// What `Pay` does: with funds attached it fails with `DontSendFunds`; with
/// an invalid relayer address it fails with `InvalidAddress`; otherwise it
/// succeeds with exactly the three effects and four attributes. A failing
/// call produces no effects.
pub open spec fn spec_execute_pay(
    config: ConfigV,
    funds: Seq<CoinV>,
    burn: u128,
    community_pool: u128,
    relayer: (Seq<char>, u128),
) -> Result<ResponseV, ContractError> {
    if funds.len() != 0 {
        Err(ContractError::DontSendFunds)
    } else if !valid_addr(relayer.0) {
        Err(ContractError::InvalidAddress)
    } else {
        Ok(
            ResponseV {
                messages: pay_messages(config, burn, community_pool, relayer),
                attributes: pay_attributes(burn, community_pool, relayer),
            },
        )
    }
}

/// What `execute` does, one case per operation.
pub open spec fn spec_execute(
    config: ConfigV,
    info: MessageInfoV,
    msg: ExecuteMsgV,
) -> Result<ResponseV, ContractError> {
    match msg {
        ExecuteMsgV::Pay { burn, community_pool, relayer } => spec_execute_pay(
            config,
            info.funds,
            burn,
            community_pool,
            relayer,
        ),
    }
}

/// What the configuration query returns: the stored record, verbatim.
pub open spec fn spec_query_config(config: ConfigV) -> ConfigResponseV {
    ConfigResponseV { community_pool: config.community_pool, sink: config.sink }
}

/// After a successful instantiation with two valid addresses, the
/// configuration query returns exactly those two addresses, unmodified.
pub proof fn lemma_instantiate_then_query(state: Option<ConfigV>, msg: InstantiateMsgV)
    requires
        valid_addr(msg.nois_sink),
        valid_addr(msg.nois_com_pool_addr),
    ensures
        spec_instantiate(state, msg).1 is Ok,
        spec_instantiate(state, msg).0 is Some,
        spec_query_config(spec_instantiate(state, msg).0->0) == (ConfigResponseV {
            community_pool: msg.nois_com_pool_addr,
            sink: msg.nois_sink,
        }),
{
}

/// A `Pay` carrying any nonzero attached funds, of whatever denomination,
/// fails with `DontSendFunds` and produces no effects.
pub proof fn lemma_pay_rejects_attached_funds(
    config: ConfigV,
    info: MessageInfoV,
    msg: ExecuteMsgV,
)
    requires
        info.funds.len() != 0,
    ensures
        spec_execute(config, info, msg) == Err::<ResponseV, ContractError>(
            ContractError::DontSendFunds,
        ),
{
}

/// A `Pay` whose relayer address fails host validation is rejected with
/// `InvalidAddress` and produces no effects.
pub proof fn lemma_pay_rejects_invalid_relayer(
    config: ConfigV,
    info: MessageInfoV,
    burn: u128,
    community_pool: u128,
    relayer: (Seq<char>, u128),
)
    requires
        info.funds.len() == 0,
        !valid_addr(relayer.0),
    ensures
        spec_execute(config, info, ExecuteMsgV::Pay { burn, community_pool, relayer })
            == Err::<ResponseV, ContractError>(ContractError::InvalidAddress),
{
}

/// A valid `Pay` with no attached funds and a valid relayer address succeeds
/// with exactly three effects: the burn sub-call to the configured sink,
/// then the transfer to the relayer, then the transfer to the configured
/// community pool, each carrying exactly the requested amount of the
/// payment denomination.
pub proof fn lemma_valid_pay_three_effects(
    config: ConfigV,
    info: MessageInfoV,
    burn: u128,
    community_pool: u128,
    relayer: (Seq<char>, u128),
)
    requires
        info.funds.len() == 0,
        valid_addr(relayer.0),
    ensures
        ({
            let r = spec_execute(config, info, ExecuteMsgV::Pay { burn, community_pool, relayer });
            &&& r is Ok
            &&& r->Ok_0.messages.len() == 3
            &&& r->Ok_0.messages[0] == (CosmosMsgV::WasmExecute {
                contract_addr: config.sink,
                msg: NoisSinkExecuteMsg::Burn {},
                funds: seq![CoinV { denom: payment_denom(), amount: burn }],
            })
            &&& r->Ok_0.messages[1] == (CosmosMsgV::BankSend {
                to_address: relayer.0,
                amount: seq![CoinV { denom: payment_denom(), amount: relayer.1 }],
            })
            &&& r->Ok_0.messages[2] == (CosmosMsgV::BankSend {
                to_address: config.community_pool,
                amount: seq![CoinV { denom: payment_denom(), amount: community_pool }],
            })
        }),
{
}

/// The configuration query reads the state and nothing else: between two
/// queries with no instantiation in between, the state is the same record,
/// so the results are identical.
pub proof fn lemma_query_config_repeatable(first: ConfigV, second: ConfigV)
    requires
        first == second,
    ensures
        spec_query_config(first) == spec_query_config(second),
{
}

/// Validates both addresses against the host's rules and commits the
/// configuration, all-or-nothing.
pub fn instantiate(state: &mut PaymentState, msg: InstantiateMsg) -> (r: Result<
    Response,
    ContractError,
>)
    ensures
        final(state)@ == spec_instantiate(old(state)@, msg@).0,
        result_view(r) == spec_instantiate(old(state)@, msg@).1,
{
    let nois_sink_addr = match validate_address(msg.nois_sink.as_str()) {
        Some(a) => a,
        None => {
            return Err(ContractError::InvalidAddress);
        },
    };
    let nois_com_pool_addr = match validate_address(msg.nois_com_pool_addr.as_str()) {
        Some(a) => a,
        None => {
            return Err(ContractError::InvalidAddress);
        },
    };
    state.config = Some(
        Config {
            community_pool: Addr::unchecked(nois_com_pool_addr),
            sink: Addr::unchecked(nois_sink_addr),
        },
    );
    let resp = Response::new().add_attribute("action".to_string(), "instantiate".to_string())
        .add_attribute("nois_sink".to_string(), msg.nois_sink)
        .add_attribute("nois_community_pool".to_string(), msg.nois_com_pool_addr);
    proof {
        assert(resp@ =~~= spec_instantiate(old(state)@, msg@).1->Ok_0);
    }
    Ok(resp)
}

/// Dispatches an executable operation to its handler.
pub fn execute(state: &PaymentState, info: &MessageInfo, msg: ExecuteMsg) -> (r: Result<
    Response,
    ContractError,
>)
    requires
        state.is_configured(),
    ensures
        result_view(r) == spec_execute(state@->0, info@, msg@),
{
    match msg {
        ExecuteMsg::Pay { burn, community_pool, relayer } => execute_pay(
            state,
            info,
            burn,
            community_pool,
            relayer,
        ),
    }
}

/// Answers a read-only query from the current state, without touching it.
pub fn query(state: &PaymentState, msg: QueryMsg) -> (r: QueryResponse)
    requires
        state.is_configured(),
    ensures
        (r matches QueryResponse::Config(c) && c@ == spec_query_config(state@->0)),
{
    match msg {
        QueryMsg::Config {} => QueryResponse::Config(query_config(state)),
    }
}

/// Reads the configuration record.
fn query_config(state: &PaymentState) -> (r: ConfigResponse)
    requires
        state.is_configured(),
    ensures
        r@ == spec_query_config(state@->0),
{
    let config = state.config.as_ref().unwrap();
    ConfigResponse {
        community_pool: Addr::unchecked(config.community_pool.as_str().to_string()),
        sink: Addr::unchecked(config.sink.as_str().to_string()),
    }
}

/// Checks that no funds are attached and that the relayer address is valid,
/// then describes the three transfers of a payment.
fn execute_pay(
    state: &PaymentState,
    info: &MessageInfo,
    burn: u128,
    community_pool: u128,
    relayer: (String, u128),
) -> (r: Result<Response, ContractError>)
    requires
        state.is_configured(),
    ensures
        result_view(r) == spec_execute_pay(
            state@->0,
            info@.funds,
            burn,
            community_pool,
            (relayer.0@, relayer.1),
        ),
{
    // This message is not payable: reject any attached funds.
    if info.funds.len() > 0 {
        return Err(ContractError::DontSendFunds);
    }
    if validate_address(relayer.0.as_str()).is_none() {
        return Err(ContractError::InvalidAddress);
    }
    let config = state.config.as_ref().unwrap();

    // Burn
    let mut burn_funds: Vec<Coin> = Vec::new();
    burn_funds.push(Coin::new(burn, "unois"));
    let mut out_msgs: Vec<CosmosMsg> = Vec::new();
    out_msgs.push(
        CosmosMsg::WasmExecute {
            contract_addr: config.sink.as_str().to_string(),
            msg: NoisSinkExecuteMsg::Burn {},
            funds: burn_funds,
        },
    );

    // Send to relayer
    let mut relayer_funds: Vec<Coin> = Vec::new();
    relayer_funds.push(Coin::new(relayer.1, "unois"));
    out_msgs.push(CosmosMsg::BankSend { to_address: relayer.0.clone(), amount: relayer_funds });

    // Send to community pool
    let mut pool_funds: Vec<Coin> = Vec::new();
    pool_funds.push(Coin::new(community_pool, "unois"));
    out_msgs.push(
        CosmosMsg::BankSend {
            to_address: config.community_pool.as_str().to_string(),
            amount: pool_funds,
        },
    );

    let resp = Response::new().add_messages(out_msgs).add_attribute(
        "burnt_amount".to_string(),
        u128_to_dec(burn),
    ).add_attribute("relayer_incentive".to_string(), u128_to_dec(relayer.1)).add_attribute(
        "relayer_address".to_string(),
        relayer.0,
    ).add_attribute("sent_to_community_pool".to_string(), u128_to_dec(community_pool));
    proof {
        let spec_r = spec_execute_pay(
            state@->0,
            info@.funds,
            burn,
            community_pool,
            (relayer.0@, relayer.1),
        );
        assert(resp@ =~~= spec_r->Ok_0);
    }
    Ok(resp)
}

} // verus!
