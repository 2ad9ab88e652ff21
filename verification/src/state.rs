//! The payment actor's persistent state: a single configuration record,
//! set once at instantiation and immutable thereafter.

use crate::addr::Addr;
use vstd::prelude::*;

verus! {

/// The two configured addresses. Both are validated before they are stored.
#[derive(Clone, Debug, PartialEq, Eq)]
pub struct Config {
    pub community_pool: Addr,
    pub sink: Addr,
}

#[verifier::ext_equal]
pub struct ConfigV {
    pub community_pool: Seq<char>,
    pub sink: Seq<char>,
}

impl View for Config {
    type V = ConfigV;

    open spec fn view(&self) -> ConfigV {
        ConfigV { community_pool: self.community_pool@, sink: self.sink@ }
    }
}

/// The actor's persistent key-value state, passed explicitly into each
/// handler. It holds the configuration record under its fixed key, or
/// nothing before instantiation.
#[derive(Clone, Debug, PartialEq, Eq)]
pub struct PaymentState {
    pub config: Option<Config>,
}

impl View for PaymentState {
    type V = Option<ConfigV>;

    open spec fn view(&self) -> Option<ConfigV> {
        match self.config {
            Some(c) => Some(c@),
            None => None,
        }
    }
}

impl PaymentState {
    /// Fresh state, before instantiation: no configuration is present.
    pub fn new() -> (s: PaymentState)
        ensures
            s@ is None,
    {
        PaymentState { config: None }
    }

    /// Whether the one-shot transition to the configured state has happened.
    pub open spec fn is_configured(&self) -> bool {
        self@ is Some
    }
}

} // verus!
