//! The vault's whole state, its mathematical view, and what it means for the
//! state to be well formed.

use vstd::prelude::*;
use crate::decimal::{Decimal, DECIMAL_FRACTIONAL};
use crate::msg::{Config, InstantiateMsg, Parameters, UnbondHistory, VaultError};
use crate::registry::{sum_delegated, Registry, Validator};
use crate::state::State;

verus! {

/// The batch that collects unbonding requests at present.
#[derive(Clone, Copy, Debug, PartialEq, Eq, Structural)]
pub struct Batch {
    pub id: u64,
    /// Underlying value of the requests collected so far.
    pub requested_with_fee: u128,
    /// When the first request arrived; `None` while there has been none.
    pub created: Option<u64>,
}

/// One user's claim on one batch, in claim tokens.
#[derive(Clone, Debug, PartialEq, Eq)]
pub struct UnbondEntry {
    pub user: String,
    pub batch_id: u64,
    pub amount: u128,
}

/// Everything the vault remembers between calls.
#[derive(Clone, Debug, PartialEq, Eq)]
pub struct Vault {
    pub config: Config,
    pub params: Parameters,
    pub state: State,
    pub registry: Registry,
    pub current_batch: Batch,
    /// Closed batches; the batch with id `i` is at position `i`.
    pub history: Vec<UnbondHistory>,
    pub requests: Vec<UnbondEntry>,
    /// Underlying value requested in batches that are closed but not released.
    pub pending_closed: u128,
    /// Amount bonded since the balance was last reconciled.
    pub bonded_since_check: u128,
    /// Amount taken off the bonded total by releases since then.
    pub unbonded_since_check: u128,
}

/// The vault as a mathematical value.
#[verifier::ext_equal]
pub struct VaultView {
    pub config: Config,
    pub params: Parameters,
    pub state: State,
    pub validators: Seq<Validator>,
    pub total_delegated: u128,
    pub current_batch: Batch,
    pub history: Seq<UnbondHistory>,
    pub requests: Seq<UnbondEntry>,
    pub pending_closed: u128,
    pub bonded_since_check: u128,
    pub unbonded_since_check: u128,
}

impl View for Vault {
    type V = VaultView;

    open spec fn view(&self) -> VaultView {
        VaultView {
            config: self.config,
            params: self.params,
            state: self.state,
            validators: self.registry.validators@,
            total_delegated: self.registry.total_delegated,
            current_batch: self.current_batch,
            history: self.history@,
            requests: self.requests@,
            pending_closed: self.pending_closed,
            bonded_since_check: self.bonded_since_check,
            unbonded_since_check: self.unbonded_since_check,
        }
    }
}

/// Underlying value requested by the batches of `h` from position `from` on.
pub open spec fn amount_from(h: Seq<UnbondHistory>, from: int) -> nat
    decreases h.len() - from,
{
    if from < 0 || from >= h.len() {
        0
    } else {
        h[from].amount as nat + amount_from(h, from + 1)
    }
}

impl VaultView {
    /// The position of the oldest batch that is not released: every batch
    /// before it is released, and none from it on.
    pub open spec fn frontier(self) -> int {
        if self.history.len() > 0 && self.history[0].released {
            self.state.last_processed_batch + 1
        } else {
            0
        }
    }

    /// Underlying value of all requests that are not released yet.
    pub open spec fn pending(self) -> int {
        self.current_batch.requested_with_fee + self.pending_closed
    }

    /// The invariant every operation keeps.
    pub open spec fn wf(self) -> bool {
        &&& forall|i: int, j: int|
            0 <= i < j < self.validators.len() ==> (#[trigger] self.validators[i]).address@ != (
            #[trigger] self.validators[j]).address@
        &&& self.total_delegated == sum_delegated(self.validators)
        &&& self.current_batch.id == self.history.len()
        &&& forall|i: int| 0 <= i < self.history.len() ==> (#[trigger] self.history[i]).batch_id == i
        &&& 0 <= self.frontier() <= self.history.len()
        &&& self.frontier() == 0 ==> self.state.last_processed_batch == 0
        &&& forall|i: int|
            0 <= i < self.history.len() ==> ((#[trigger] self.history[i]).released <==> i
                < self.frontier())
        &&& self.pending_closed == amount_from(self.history, self.frontier())
        &&& self.pending() <= u128::MAX
        &&& self.state.total_bond_amount + self.unbonded_since_check
            == self.state.prev_vault_balance + self.bonded_since_check
        &&& self.state.prev_vault_balance + self.bonded_since_check <= u128::MAX
        &&& self.params.peg_recovery_fee.atomics <= DECIMAL_FRACTIONAL
        &&& self.state.exchange_rate.atomics > 0
    }
}

impl Vault {
    /// The invariant every operation keeps.
    pub open spec fn wf(&self) -> bool {
        self@.wf()
    }

    /// A fresh vault owned by `creator`: nothing bonded, the rate at one, the
    /// first batch open for requests, and the validator named in `msg` on the
    /// whitelist. A recovery fee above one is refused.
    pub fn instantiate(creator: String, msg: InstantiateMsg) -> (r: Result<Vault, VaultError>)
        ensures
            msg.peg_recovery_fee.atomics > DECIMAL_FRACTIONAL ==> r == Err::<Vault, VaultError>(
                VaultError::InvalidAmount,
            ),
            msg.peg_recovery_fee.atomics <= DECIMAL_FRACTIONAL ==> r is Ok && r->Ok_0.wf() && ({
                let v = r->Ok_0@;
                &&& v.config.creator == creator
                &&& v.config.yluna_staking is None
                &&& v.config.cluna_contract is None
                &&& v.config.yluna_contract is None
                &&& v.config.pluna_contract is None
                &&& v.config.airdrop_registry_contract is None
                &&& v.params.epoch_period == msg.epoch_period
                &&& v.params.underlying_coin_denom == msg.underlying_coin_denom
                &&& v.params.unbonding_period == msg.unbonding_period
                &&& v.params.peg_recovery_fee == msg.peg_recovery_fee
                &&& v.params.er_threshold == msg.er_threshold
                &&& v.params.validator@ == msg.validator@
                &&& v.state == (State {
                    exchange_rate: Decimal { atomics: DECIMAL_FRACTIONAL },
                    total_bond_amount: 0,
                    last_index_modification: 0,
                    prev_vault_balance: 0,
                    actual_unbonded_amount: 0,
                    last_unbonded_time: 0,
                    last_processed_batch: 0,
                })
                &&& v.validators == seq![Validator { address: msg.validator, delegated: 0 }]
                &&& v.total_delegated == 0
                &&& v.current_batch == (Batch { id: 0, requested_with_fee: 0, created: None })
                &&& v.history.len() == 0
                &&& v.requests.len() == 0
                &&& v.pending_closed == 0
                &&& v.bonded_since_check == 0
                &&& v.unbonded_since_check == 0
            }),
    {
        if msg.peg_recovery_fee.atomics > DECIMAL_FRACTIONAL {
            return Err(VaultError::InvalidAmount);
        }
        let mut registry = Registry::new();
        let fallback = msg.validator.clone();
        let registered = registry.register(msg.validator);
        assert(registered is Ok);
        let vault = Vault {
            config: Config {
                creator,
                yluna_staking: None,
                cluna_contract: None,
                yluna_contract: None,
                pluna_contract: None,
                airdrop_registry_contract: None,
            },
            params: Parameters {
                epoch_period: msg.epoch_period,
                underlying_coin_denom: msg.underlying_coin_denom,
                unbonding_period: msg.unbonding_period,
                peg_recovery_fee: msg.peg_recovery_fee,
                er_threshold: msg.er_threshold,
                validator: fallback,
            },
            state: State {
                exchange_rate: Decimal::one(),
                total_bond_amount: 0,
                last_index_modification: 0,
                prev_vault_balance: 0,
                actual_unbonded_amount: 0,
                last_unbonded_time: 0,
                last_processed_batch: 0,
            },
            registry,
            current_batch: Batch { id: 0, requested_with_fee: 0, created: None },
            history: Vec::new(),
            requests: Vec::new(),
            pending_closed: 0,
            bonded_since_check: 0,
            unbonded_since_check: 0,
        };
        Ok(vault)
    }
}

} // verus!
