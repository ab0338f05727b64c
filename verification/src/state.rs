use vstd::prelude::*;
use crate::identity::Identity;

verus! {

/// The record of one wager.
///
/// `trader` is the creator. `counterparty` is absent until the wager is
/// accepted. All fields but `counterparty` and `settled` are fixed at creation.
#[derive(Clone, Debug, PartialEq, Eq)]
pub struct EscrowState {
    pub trader: Identity,
    pub counterparty: Option<Identity>,
    pub collection_id: String,
    pub predicted_floor: u64,
    pub expiry_timestamp: i64,
    pub margin_amount: u64,
    pub is_initialized: bool,
    pub settled: bool,
}

impl EscrowState {
    /// Bytes reserved for a stored record: an 8-byte tag, the creator (32), the
    /// optional counterparty (1 + 32), the collection id (4 + up to 32), three
    /// 8-byte numbers and the two flags.
    pub const LEN: usize = 8 + 32 + 33 + 36 + 8 + 8 + 8 + 1 + 1;

    /// The record exists and has not been settled.
    pub open spec fn is_live(self) -> bool {
        self.is_initialized && !self.settled
    }

    /// The collateral that a record in this state holds: nothing before
    /// creation and after settlement, the creator's lock until acceptance, and
    /// both locks from acceptance to settlement.
    pub open spec fn expected_held(self) -> int {
        if !self.is_live() {
            0
        } else if self.counterparty is None {
            self.margin_amount as int
        } else {
            2 * self.margin_amount
        }
    }

    /// The record was never created: both flags are unset, no party is bound
    /// beyond the all-zero creator, the collection id is empty and every
    /// number is zero.
    pub open spec fn is_empty(self) -> bool {
        &&& !self.is_initialized
        &&& !self.settled
        &&& self.counterparty is None
        &&& self.collection_id@ == Seq::<char>::empty()
        &&& self.predicted_floor == 0
        &&& self.expiry_timestamp == 0
        &&& self.margin_amount == 0
        &&& self.trader.bytes@ == Seq::new(32, |i: int| 0u8)
    }

    /// A record that was never created.
    pub fn empty() -> (state: EscrowState)
        ensures
            state.is_empty(),
    {
        let state = EscrowState {
            trader: Identity { bytes: [0u8; 32] },
            counterparty: None,
            collection_id: String::new(),
            predicted_floor: 0,
            expiry_timestamp: 0,
            margin_amount: 0,
            is_initialized: false,
            settled: false,
        };
        assert(state.trader.bytes@ =~= Seq::new(32, |i: int| 0u8));
        state
    }

    /// Whether a counterparty has accepted.
    pub fn is_accepted(&self) -> (accepted: bool)
        ensures
            accepted == (self.counterparty is Some),
    {
        self.counterparty.is_some()
    }
}

/// A participant's identity together with their spendable balance.
#[derive(Clone, Copy, Debug, PartialEq, Eq)]
pub struct Wallet {
    pub key: Identity,
    pub balance: u64,
}

/// An escrow record together with the collateral it holds in custody.
#[derive(Clone, Debug, PartialEq, Eq)]
pub struct EscrowAccount {
    pub held: u64,
    pub state: EscrowState,
}

impl EscrowAccount {
    /// The held balance is exactly what the record's state accounts for, and a
    /// live record has a positive collateral amount.
    pub open spec fn wf(self) -> bool {
        &&& self.held == self.state.expected_held()
        &&& self.state.is_live() ==> self.state.margin_amount > 0
    }

    /// An account with no record and nothing held.
    pub fn empty() -> (account: EscrowAccount)
        ensures
            account.wf(),
            account.held == 0,
            account.state.is_empty(),
    {
        EscrowAccount { held: 0, state: EscrowState::empty() }
    }

    /// Tests the invariant that every operation of the engine asks for.
    pub fn is_well_formed(&self) -> (ok: bool)
        ensures
            ok == self.wf(),
    {
        if !self.state.is_initialized || self.state.settled {
            self.held == 0
        } else if self.state.margin_amount == 0 {
            false
        } else if self.state.counterparty.is_none() {
            self.held == self.state.margin_amount
        } else {
            self.state.margin_amount <= u64::MAX / 2 && self.held == 2 * self.state.margin_amount
        }
    }
}

} // verus!
