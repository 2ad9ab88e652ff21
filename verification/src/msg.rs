//! The message shapes the payment actor accepts, and the shapes it returns.

use crate::addr::Addr;
use vstd::prelude::*;

verus! {

/// Sets the two configured addresses at instantiation.
#[derive(Clone, Debug, PartialEq, Eq)]
pub struct InstantiateMsg {
    /// The sink actor that permanently records burnt funds.
    pub nois_sink: String,
    /// The community pool that receives a share of each payment.
    pub nois_com_pool_addr: String,
}

#[verifier::ext_equal]
pub struct InstantiateMsgV {
    pub nois_sink: Seq<char>,
    pub nois_com_pool_addr: Seq<char>,
}

impl View for InstantiateMsg {
    type V = InstantiateMsgV;

    open spec fn view(&self) -> InstantiateMsgV {
        InstantiateMsgV { nois_sink: self.nois_sink@, nois_com_pool_addr: self.nois_com_pool_addr@ }
    }
}

/// The executable operations, one handler per variant.
#[derive(Debug, PartialEq, Eq)]
pub enum ExecuteMsg {
    /// Burn `burn`, reward the relayer, and fund the community pool, each in
    /// the fixed payment denomination.
    Pay { burn: u128, community_pool: u128, relayer: (String, u128) },
}

#[verifier::ext_equal]
pub enum ExecuteMsgV {
    Pay { burn: u128, community_pool: u128, relayer: (Seq<char>, u128) },
}

impl View for ExecuteMsg {
    type V = ExecuteMsgV;

    open spec fn view(&self) -> ExecuteMsgV {
        match self {
            ExecuteMsg::Pay { burn, community_pool, relayer } => ExecuteMsgV::Pay {
                burn: *burn,
                community_pool: *community_pool,
                relayer: (relayer.0@, relayer.1),
            },
        }
    }
}

/// The sub-call shape the sink actor accepts.
#[derive(Clone, Copy, Debug, PartialEq, Eq, Structural)]
pub enum NoisSinkExecuteMsg {
    Burn {},
}

/// The read-only queries.
#[derive(Clone, Debug, PartialEq, Eq)]
pub enum QueryMsg {
    Config {},
}

/// The current configuration, returned verbatim.
#[derive(Clone, Debug, PartialEq, Eq)]
pub struct ConfigResponse {
    pub community_pool: Addr,
    pub sink: Addr,
}

#[verifier::ext_equal]
pub struct ConfigResponseV {
    pub community_pool: Seq<char>,
    pub sink: Seq<char>,
}

impl View for ConfigResponse {
    type V = ConfigResponseV;

    open spec fn view(&self) -> ConfigResponseV {
        ConfigResponseV { community_pool: self.community_pool@, sink: self.sink@ }
    }
}

/// One variant per query.
#[derive(Clone, Debug, PartialEq, Eq)]
pub enum QueryResponse {
    Config(ConfigResponse),
}

} // verus!
