//! Read-only questions about the vault. None of them changes anything.

use vstd::prelude::*;
use crate::msg::{
    AllHistoryResponse, ConfigResponse, CurrentBatchResponse, Parameters, QueryMsg,
    StateResponse, UnbondHistory, UnbondRequestsResponse, VaultError,
    WhitelistedValidatorsResponse, WithdrawableUnbondedResponse,
};
use crate::settlement::{lemma_settlement_none, settlement};
use crate::vault::{UnbondEntry, Vault};

verus! {

/// The claims of `user` among `reqs`, in their order, as pairs of batch id
/// and amount.
pub open spec fn claims_of(reqs: Seq<UnbondEntry>, user: Seq<char>) -> Seq<(u64, u128)>
    decreases reqs.len(),
{
    if reqs.len() == 0 {
        Seq::empty()
    } else if reqs.last().user@ == user {
        claims_of(reqs.drop_last(), user).push((reqs.last().batch_id, reqs.last().amount))
    } else {
        claims_of(reqs.drop_last(), user)
    }
}

/// Where a page of the history starts: at `start_from`, or at the beginning
/// where none is given, and never past the end.
pub open spec fn page_start(len: int, start_from: Option<u64>) -> int {
    if start_from is Some && start_from->0 < len {
        start_from->0 as int
    } else if start_from is Some {
        len
    } else {
        0
    }
}

/// Where a page of the history ends: `limit` records after its start, or at
/// the end of the history where that comes first or no limit is given.
pub open spec fn page_end(len: int, start_from: Option<u64>, limit: Option<u32>) -> int {
    let lo = page_start(len, start_from);
    if limit is Some && lo + limit->0 < len {
        lo + limit->0
    } else {
        len
    }
}

/// The answer to a query.
#[derive(Clone, Debug, PartialEq, Eq)]
pub enum QueryResponse {
    Config(ConfigResponse),
    State(StateResponse),
    WhitelistedValidators(WhitelistedValidatorsResponse),
    CurrentBatch(CurrentBatchResponse),
    WithdrawableUnbonded(WithdrawableUnbondedResponse),
    Parameters(Parameters),
    UnbondRequests(UnbondRequestsResponse),
    AllHistory(AllHistoryResponse),
}

/// A copy of an optional address.
fn copy_of(s: &Option<String>) -> (r: Option<String>)
    ensures
        r == *s,
{
    match s {
        Some(inner) => Some(inner.clone()),
        None => None,
    }
}

impl Vault {
    /// The owner and the collaborator addresses.
    pub fn query_config(&self) -> (r: ConfigResponse)
        ensures
            r.owner == self.config.creator,
            r.yluna_staking == self.config.yluna_staking,
            r.cluna_contract == self.config.cluna_contract,
            r.pluna_contract == self.config.pluna_contract,
            r.yluna_contract == self.config.yluna_contract,
            r.airdrop_registry_contract == self.config.airdrop_registry_contract,
    {
        ConfigResponse {
            owner: self.config.creator.clone(),
            yluna_staking: copy_of(&self.config.yluna_staking),
            cluna_contract: copy_of(&self.config.cluna_contract),
            pluna_contract: copy_of(&self.config.pluna_contract),
            yluna_contract: copy_of(&self.config.yluna_contract),
            airdrop_registry_contract: copy_of(&self.config.airdrop_registry_contract),
        }
    }

    /// The aggregate accounting record.
    pub fn query_state(&self) -> (r: StateResponse)
        ensures
            r == (StateResponse {
                exchange_rate: self.state.exchange_rate,
                total_bond_amount: self.state.total_bond_amount,
                last_index_modification: self.state.last_index_modification,
                prev_vault_balance: self.state.prev_vault_balance,
                actual_unbonded_amount: self.state.actual_unbonded_amount,
                last_unbonded_time: self.state.last_unbonded_time,
                last_processed_batch: self.state.last_processed_batch,
            }),
    {
        StateResponse {
            exchange_rate: self.state.exchange_rate,
            total_bond_amount: self.state.total_bond_amount,
            last_index_modification: self.state.last_index_modification,
            prev_vault_balance: self.state.prev_vault_balance,
            actual_unbonded_amount: self.state.actual_unbonded_amount,
            last_unbonded_time: self.state.last_unbonded_time,
            last_processed_batch: self.state.last_processed_batch,
        }
    }

    /// The addresses on the whitelist, in registration order.
    pub fn query_validators(&self) -> (r: WhitelistedValidatorsResponse)
        ensures
            r.validators@.len() == self@.validators.len(),
            forall|i: int|
                0 <= i < r.validators@.len() ==> #[trigger] r.validators@[i]
                    == self@.validators[i].address,
    {
        let mut out: Vec<String> = Vec::new();
        let mut i: usize = 0;
        while i < self.registry.validators.len()
            invariant
                i <= self.registry.validators@.len(),
                out@.len() == i,
                forall|k: int| 0 <= k < i ==> #[trigger] out@[k] == self.registry.validators@[k].address,
            decreases self.registry.validators@.len() - i,
        {
            out.push(self.registry.validators[i].address.clone());
            i += 1;
        }
        WhitelistedValidatorsResponse { validators: out }
    }

    /// The id of the open batch and what it has collected.
    pub fn query_current_batch(&self) -> (r: CurrentBatchResponse)
        ensures
            r.id == self.current_batch.id,
            r.requested_with_fee == self.current_batch.requested_with_fee,
    {
        CurrentBatchResponse {
            id: self.current_batch.id,
            requested_with_fee: self.current_batch.requested_with_fee,
        }
    }

    /// The schedule and fee parameters.
    pub fn query_params(&self) -> (r: Parameters)
        ensures
            r == self.params,
    {
        Parameters {
            epoch_period: self.params.epoch_period,
            underlying_coin_denom: self.params.underlying_coin_denom.clone(),
            unbonding_period: self.params.unbonding_period,
            peg_recovery_fee: self.params.peg_recovery_fee,
            er_threshold: self.params.er_threshold,
            validator: self.params.validator.clone(),
        }
    }

    /// What `address` would be paid by a withdrawal now: the sum over its
    /// claims on released batches, zero where it has none. Refused where
    /// that sum exceeds 128 bits.
    pub fn query_withdrawable(&self, address: &String) -> (r: Result<
        WithdrawableUnbondedResponse,
        VaultError,
    >)
        requires
            self.wf(),
        ensures
            match settlement(self@.requests, address@, self@.history, self@.params) {
                Some(total) => r is Ok && r->Ok_0.withdrawable == total,
                None => r == Err::<WithdrawableUnbondedResponse, VaultError>(
                    VaultError::InvalidAmount,
                ),
            },
    {
        let mut total: u128 = 0;
        let mut i: usize = 0;
        while i < self.requests.len()
            invariant
                self.wf(),
                i <= self.requests@.len(),
                settlement(self.requests@.take(i as int), address@, self.history@, self.params)
                    == Some(total as int),
            decreases self.requests@.len() - i,
        {
            proof {
                assert(self.requests@.take(i + 1).drop_last() =~= self.requests@.take(i as int));
            }
            if self.requests[i].user == *address {
                match self.settle_request(self.requests[i].batch_id, self.requests[i].amount) {
                    Ok(net) => {
                        total = match total.checked_add(net) {
                            Some(t) => t,
                            None => {
                                proof {
                                    lemma_settlement_none(
                                        self.requests@,
                                        address@,
                                        self.history@,
                                        self.params,
                                        i + 1,
                                    );
                                }
                                return Err(VaultError::InvalidAmount);
                            },
                        };
                    },
                    Err(VaultError::InvalidAmount) => {
                        proof {
                            lemma_settlement_none(
                                self.requests@,
                                address@,
                                self.history@,
                                self.params,
                                i + 1,
                            );
                        }
                        return Err(VaultError::InvalidAmount);
                    },
                    Err(_) => {},
                }
            }
            i += 1;
        }
        proof {
            assert(self.requests@.take(i as int) =~= self.requests@);
        }
        Ok(WithdrawableUnbondedResponse { withdrawable: total })
    }

    /// The claims `address` holds, paid or not, in the order they were made.
    pub fn query_unbond_requests(&self, address: &String) -> (r: UnbondRequestsResponse)
        ensures
            r.address == *address,
            r.requests@ == claims_of(self@.requests, address@),
    {
        let mut out: Vec<(u64, u128)> = Vec::new();
        let mut i: usize = 0;
        while i < self.requests.len()
            invariant
                i <= self.requests@.len(),
                out@ == claims_of(self.requests@.take(i as int), address@),
            decreases self.requests@.len() - i,
        {
            proof {
                assert(self.requests@.take(i + 1).drop_last() =~= self.requests@.take(i as int));
            }
            if self.requests[i].user == *address {
                out.push((self.requests[i].batch_id, self.requests[i].amount));
            }
            i += 1;
        }
        proof {
            assert(self.requests@.take(i as int) =~= self.requests@);
        }
        UnbondRequestsResponse { address: address.clone(), requests: out }
    }

    /// A page of the history of closed batches: the records from batch
    /// `start_from` on, at most `limit` of them, in order of their ids.
    pub fn query_all_history(&self, start_from: Option<u64>, limit: Option<u32>) -> (r:
        AllHistoryResponse)
        ensures
            r.history@ == self@.history.subrange(
                page_start(self@.history.len() as int, start_from),
                page_end(self@.history.len() as int, start_from, limit),
            ),
    {
        let len: usize = self.history.len();
        let lo: usize = match start_from {
            Some(s) => if s < len as u64 {
                s as usize
            } else {
                len
            },
            None => 0,
        };
        let hi: usize = match limit {
            Some(l) => if (l as u64) < (len - lo) as u64 {
                lo + l as usize
            } else {
                len
            },
            None => len,
        };
        let mut out: Vec<UnbondHistory> = Vec::new();
        let mut i: usize = lo;
        while i < hi
            invariant
                lo <= i <= hi <= self.history@.len(),
                out@ == self.history@.subrange(lo as int, i as int),
            decreases hi - i,
        {
            out.push(self.history[i]);
            proof {
                assert(self.history@.subrange(lo as int, i + 1) =~= self.history@.subrange(
                    lo as int,
                    i as int,
                ).push(self.history@[i as int]));
            }
            i += 1;
        }
        AllHistoryResponse { history: out }
    }

    /// Answers one query.
    pub fn query(&self, msg: &QueryMsg) -> (r: Result<QueryResponse, VaultError>)
        requires
            self.wf(),
        ensures
            match *msg {
                QueryMsg::Config {  } => r is Ok && r->Ok_0 is Config && ({
                    let c = r->Ok_0->Config_0;
                    &&& c.owner == self.config.creator
                    &&& c.yluna_staking == self.config.yluna_staking
                    &&& c.cluna_contract == self.config.cluna_contract
                    &&& c.pluna_contract == self.config.pluna_contract
                    &&& c.yluna_contract == self.config.yluna_contract
                    &&& c.airdrop_registry_contract == self.config.airdrop_registry_contract
                }),
                QueryMsg::State {  } => r is Ok && r->Ok_0 is State && r->Ok_0->State_0 == (
                StateResponse {
                    exchange_rate: self.state.exchange_rate,
                    total_bond_amount: self.state.total_bond_amount,
                    last_index_modification: self.state.last_index_modification,
                    prev_vault_balance: self.state.prev_vault_balance,
                    actual_unbonded_amount: self.state.actual_unbonded_amount,
                    last_unbonded_time: self.state.last_unbonded_time,
                    last_processed_batch: self.state.last_processed_batch,
                }),
                QueryMsg::WhitelistedValidators {  } => r is Ok && r->Ok_0 is WhitelistedValidators
                    && r->Ok_0->WhitelistedValidators_0.validators@.len() == self@.validators.len()
                    && forall|i: int|
                    0 <= i < self@.validators.len()
                        ==> #[trigger] r->Ok_0->WhitelistedValidators_0.validators@[i]
                        == self@.validators[i].address,
                QueryMsg::CurrentBatch {  } => r is Ok && r->Ok_0 is CurrentBatch
                    && r->Ok_0->CurrentBatch_0.id == self.current_batch.id
                    && r->Ok_0->CurrentBatch_0.requested_with_fee
                    == self.current_batch.requested_with_fee,
                QueryMsg::WithdrawableUnbonded { address } => match settlement(
                    self@.requests,
                    address@,
                    self@.history,
                    self@.params,
                ) {
                    Some(total) => r is Ok && r->Ok_0 is WithdrawableUnbonded
                        && r->Ok_0->WithdrawableUnbonded_0.withdrawable == total,
                    None => r == Err::<QueryResponse, VaultError>(VaultError::InvalidAmount),
                },
                QueryMsg::Parameters {  } => r is Ok && r->Ok_0 is Parameters
                    && r->Ok_0->Parameters_0 == self.params,
                QueryMsg::UnbondRequests { address } => r is Ok && r->Ok_0 is UnbondRequests
                    && r->Ok_0->UnbondRequests_0.address == address
                    && r->Ok_0->UnbondRequests_0.requests@ == claims_of(self@.requests, address@),
                QueryMsg::AllHistory { start_from, limit } => r is Ok && r->Ok_0 is AllHistory
                    && r->Ok_0->AllHistory_0.history@ == self@.history.subrange(
                    page_start(self@.history.len() as int, start_from),
                    page_end(self@.history.len() as int, start_from, limit),
                ),
            },
    {
        match msg {
            QueryMsg::Config {  } => Ok(QueryResponse::Config(self.query_config())),
            QueryMsg::State {  } => Ok(QueryResponse::State(self.query_state())),
            QueryMsg::WhitelistedValidators {  } => Ok(
                QueryResponse::WhitelistedValidators(self.query_validators()),
            ),
            QueryMsg::CurrentBatch {  } => Ok(QueryResponse::CurrentBatch(self.query_current_batch())),
            QueryMsg::WithdrawableUnbonded { address } => match self.query_withdrawable(address) {
                Ok(w) => Ok(QueryResponse::WithdrawableUnbonded(w)),
                Err(e) => Err(e),
            },
            QueryMsg::Parameters {  } => Ok(QueryResponse::Parameters(self.query_params())),
            QueryMsg::UnbondRequests { address } => Ok(
                QueryResponse::UnbondRequests(self.query_unbond_requests(address)),
            ),
            QueryMsg::AllHistory { start_from, limit } => Ok(
                QueryResponse::AllHistory(self.query_all_history(*start_from, *limit)),
            ),
        }
    }
}

} // verus!
