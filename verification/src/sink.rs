//! The sink actor's state shape: an append-only ledger of burn events.
//! Each accepted burn sub-call appends exactly one record; nothing is ever
//! mutated or deleted, and insertion order is chronological order.

use crate::addr::Addr;
use crate::types::{coins_view, Coin, CoinV};
use vstd::prelude::*;

verus! {

/// Why the sink actor rejected a call.
#[derive(Clone, Debug, PartialEq, Eq)]
pub enum ContractError {
    /// A storage or serialization fault surfaced verbatim.
    Std(String),
    /// More than one coin was sent where exactly one is expected.
    TooManyCoins,
    /// No coins were sent, or the single coin sent carries a zero amount.
    NoCoins,
    /// Funds were attached to a message that accepts none.
    NonPayableMessage,
    /// There is nothing in the sink to burn.
    NoFundsToBurn,
}

/// One burnt record: the funds, who sent them (if attributed), and the
/// ledger time of the block that created it.
#[derive(Clone, Debug, PartialEq, Eq)]
pub struct Ash {
    pub burner: Option<Addr>,
    pub amount: Coin,
    /// Point in time (block time) when the Ash was created
    pub time: u64,
}

#[verifier::ext_equal]
pub struct AshV {
    pub burner: Option<Seq<char>>,
    pub amount: CoinV,
    pub time: u64,
}

impl View for Ash {
    type V = AshV;

    open spec fn view(&self) -> AshV {
        AshV {
            burner: match &self.burner {
                Some(a) => Some(a@),
                None => None,
            },
            amount: self.amount@,
            time: self.time,
        }
    }
}

/// Whether a burn is accepted: exactly one coin, with a nonzero amount.
pub open spec fn burn_accepted(funds: Seq<CoinV>) -> bool {
    funds.len() == 1 && funds[0].amount > 0
}

/// The sink's append-only collection of burn events, kept in insertion
/// order under a fixed collection key.
#[derive(Clone, Debug, PartialEq, Eq)]
pub struct Ashes {
    entries: Vec<Ash>,
}

impl View for Ashes {
    type V = Seq<AshV>;

    closed spec fn view(&self) -> Seq<AshV> {
        self.entries@.map_values(|a: Ash| a@)
    }
}

impl Ashes {
    /// Event times never decrease along the log: insertion order is
    /// chronological order.
    pub open spec fn wf(&self) -> bool {
        forall|i: int, j: int|
            0 <= i <= j < self@.len() ==> self@[i].time <= self@[j].time
    }

    /// An empty ledger.
    pub fn new() -> (s: Ashes)
        ensures
            s@ == Seq::<AshV>::empty(),
            s.wf(),
    {
        let s = Ashes { entries: Vec::new() };
        proof {
            assert(s@ =~= Seq::<AshV>::empty());
        }
        s
    }

    pub fn len(&self) -> (n: usize)
        ensures
            n == self@.len(),
    {
        self.entries.len()
    }

    /// The event at the given position, oldest first.
    pub fn get(&self, i: usize) -> (a: &Ash)
        requires
            i < self@.len(),
        ensures
            a@ == self@[i as int],
    {
        &self.entries[i]
    }

    /// Handles one burn sub-call at ledger time `time`: exactly one new
    /// event is appended when the funds are accepted (one coin, nonzero),
    /// and nothing changes when they are not. Ledger time never runs
    /// backwards, so the log stays in chronological order.
    pub fn record_burn(&mut self, burner: Option<Addr>, funds: Vec<Coin>, time: u64) -> (r: Result<
        (),
        ContractError,
    >)
        requires
            old(self).wf(),
            forall|i: int| 0 <= i < old(self)@.len() ==> old(self)@[i].time <= time,
        ensures
            final(self).wf(),
            burn_accepted(coins_view(funds@)) ==> r is Ok && final(self)@
                == old(self)@.push(
                AshV {
                    burner: match burner {
                        Some(a) => Some(a@),
                        None => None::<Seq<char>>,
                    },
                    amount: funds@[0]@,
                    time,
                },
            ),
            !burn_accepted(coins_view(funds@)) ==> final(self)@ == old(self)@ && (
            funds@.len() > 1 ==> r matches Err(ContractError::TooManyCoins)) && (funds@.len() <= 1
                ==> r matches Err(ContractError::NoCoins)),
    {
        if funds.len() > 1 {
            return Err(ContractError::TooManyCoins);
        }
        if funds.len() == 0 {
            return Err(ContractError::NoCoins);
        }
        let mut funds = funds;
        let coin = funds.remove(0);
        if coin.amount == 0 {
            return Err(ContractError::NoCoins);
        }
        let ghost old_view = self@;
        let ash = Ash { burner, amount: coin, time };
        let ghost ash_view = ash@;
        self.entries.push(ash);
        proof {
            assert(self@ =~= old_view.push(ash_view));
            assert forall|i: int, j: int| 0 <= i <= j < self@.len() implies self@[i].time
                <= self@[j].time by {
                if j < old_view.len() {
                    assert(old(self).wf());
                } else {
                    assert(self@[j].time == time);
                }
            }
        }
        Ok(())
    }
}

} // verus!
