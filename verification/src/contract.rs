//! The single entry point for state-changing messages.
//!
//! A call runs against the vault it is given and hands back the vault that
//! results, together with what the outside world must now do. A refused
//! call hands back nothing, so no partial change can be observed.

use vstd::prelude::*;
use crate::admin::{or_kept, or_kept_opt};
use crate::batches::AdvanceReport;
use crate::decimal::Decimal;
use crate::msg::{Config, Cw20HookMsg, ExecuteMsg, Parameters, ReceiveMsg, VaultError};
use crate::registry::{without, Validator};
use crate::tokens::{merge, merge_spec, split, split_spec, Holdings};
use crate::vault::{Vault, VaultView};

verus! {

/// The three derivative tokens.
#[derive(Clone, Copy, Debug, PartialEq, Eq, Structural)]
pub enum Token {
    Claim,
    Yield,
    Principal,
}

/// What the vault asks of its collaborators.
#[derive(Clone, Debug, PartialEq, Eq)]
pub enum Action {
    Delegate { validator: String, amount: u128 },
    Undelegate { amount: u128 },
    Redelegate { from: String, amount: u128 },
    Mint { token: Token, recipient: String, amount: u128 },
    Burn { token: Token, owner: String, amount: u128 },
    Send { recipient: String, amount: u128 },
    ForwardRewards,
    DepositAirdropReward { airdrop_token_contract: String },
    ClaimAirdrop { airdrop_token_contract: String, airdrop_contract: String, claim_msg: Vec<u8> },
}

/// What the host knows at the time of a call.
#[derive(Clone, Debug, PartialEq, Eq)]
pub struct Env {
    /// Current time in seconds.
    pub now: u64,
    /// Who makes the call.
    pub sender: String,
    /// The vault's own address.
    pub contract: String,
    /// Underlying asset sent along with the call.
    pub funds: u128,
    /// Claim tokens outstanding before the call.
    pub total_issued: u128,
    /// Underlying asset the vault has on hand, where known.
    pub vault_balance: Option<u128>,
    /// Underlying asset really delegated, where known.
    pub delegated_balance: Option<u128>,
    /// Derivative tokens of the user the call is about, before the call.
    pub holdings: Holdings,
}

/// What closing the open batch asks for: the stake behind it back.
pub open spec fn advance_actions(v: VaultView, now: u64) -> Seq<Action> {
    if v.close_due(now) {
        seq![Action::Undelegate { amount: v.current_batch.requested_with_fee }]
    } else {
        Seq::empty()
    }
}

/// Whether the token transfer reported in a `Receive` comes from the claim
/// token's own ledger.
pub open spec fn from_claim_token(v: VaultView, env: Env) -> bool {
    v.config.cluna_contract is Some && v.config.cluna_contract->0@ == env.sender@
}

/// Why the message is refused by the up-to-date vault `v`, if it is.
pub open spec fn execute_error(v: VaultView, env: Env, msg: ExecuteMsg) -> Option<VaultError> {
    match msg {
        ExecuteMsg::UpdateConfig { .. } => if v.owned_by(env.sender@) {
            None
        } else {
            Some(VaultError::Unauthorized)
        },
        ExecuteMsg::RegisterValidator { validator } => v.register_error(env.sender@, validator@),
        ExecuteMsg::DeregisterValidator { validator } => v.deregister_error(
            env.sender@,
            validator@,
        ),
        ExecuteMsg::UpdateParams { peg_recovery_fee, .. } => v.params_error(
            env.sender@,
            peg_recovery_fee,
        ),
        ExecuteMsg::Bond { .. } => v.bond_error(env.funds, env.total_issued),
        ExecuteMsg::BondSplit { .. } => if v.bond_error(env.funds, env.total_issued) is Some {
            v.bond_error(env.funds, env.total_issued)
        } else if env.holdings.yield_token + v.bond_minted(env.funds) > u128::MAX
            || env.holdings.principal + v.bond_minted(env.funds) > u128::MAX {
            Some(VaultError::InvalidAmount)
        } else {
            None
        },
        ExecuteMsg::UpdateGlobalIndex { .. } => None,
        ExecuteMsg::WithdrawUnbonded {  } => v.withdraw_error(env.sender@),
        ExecuteMsg::CheckSlashing {  } => v.slashing_error(env.delegated_balance, env.total_issued),
        ExecuteMsg::Receive(received) => if !from_claim_token(v, env) {
            Some(VaultError::Unauthorized)
        } else {
            v.unbond_error(received.sender@, received.amount, env.holdings.claim, env.total_issued)
        },
        ExecuteMsg::Split { amount } => match split_spec(env.holdings, amount) {
            Err(e) => Some(e),
            Ok(_) => None,
        },
        ExecuteMsg::Merge { amount } => match merge_spec(env.holdings, amount) {
            Err(e) => Some(e),
            Ok(_) => None,
        },
        ExecuteMsg::DepositAirdropReward { .. } => if env.sender@ == env.contract@ {
            None
        } else {
            Some(VaultError::Unauthorized)
        },
        ExecuteMsg::ClaimAirdrop { .. } => if env.sender@ == env.contract@ {
            None
        } else {
            Some(VaultError::Unauthorized)
        },
    }
}

/// The vault that the accepted message turns the up-to-date vault `v` into.
pub open spec fn execute_state(v: VaultView, env: Env, msg: ExecuteMsg) -> VaultView {
    let target = v.chosen_target(hint_of(msg));
    match msg {
        ExecuteMsg::UpdateConfig {
            owner,
            yluna_staking,
            cluna_contract,
            yluna_contract,
            pluna_contract,
            airdrop_registry_contract,
        } => VaultView {
            config: Config {
                creator: or_kept(owner, v.config.creator),
                yluna_staking: or_kept_opt(yluna_staking, v.config.yluna_staking),
                cluna_contract: or_kept_opt(cluna_contract, v.config.cluna_contract),
                yluna_contract: or_kept_opt(yluna_contract, v.config.yluna_contract),
                pluna_contract: or_kept_opt(pluna_contract, v.config.pluna_contract),
                airdrop_registry_contract: or_kept_opt(
                    airdrop_registry_contract,
                    v.config.airdrop_registry_contract,
                ),
            },
            ..v
        },
        ExecuteMsg::RegisterValidator { validator } => VaultView {
            validators: v.validators.push(Validator { address: validator, delegated: 0 }),
            ..v
        },
        ExecuteMsg::DeregisterValidator { validator } => VaultView {
            validators: without(v.validators, v.position_of(validator@)),
            ..v
        },
        ExecuteMsg::UpdateParams { epoch_period, unbonding_period, peg_recovery_fee, er_threshold } => VaultView {
            params: Parameters {
                epoch_period: or_kept(epoch_period, v.params.epoch_period),
                unbonding_period: or_kept(unbonding_period, v.params.unbonding_period),
                peg_recovery_fee: or_kept(peg_recovery_fee, v.params.peg_recovery_fee),
                er_threshold: or_kept(er_threshold, v.params.er_threshold),
                ..v.params
            },
            ..v
        },
        ExecuteMsg::Bond { .. } => v.after_bond(target, env.funds, env.now, env.total_issued),
        ExecuteMsg::BondSplit { .. } => v.after_bond(target, env.funds, env.now, env.total_issued),
        ExecuteMsg::WithdrawUnbonded {  } => v.after_withdraw(env.sender@),
        ExecuteMsg::CheckSlashing {  } => v.after_slashing_check(
            env.delegated_balance->0,
            env.now,
            env.total_issued,
        ),
        ExecuteMsg::Receive(received) => v.after_unbond(
            received.sender,
            received.amount,
            env.now,
            env.total_issued,
        ),
        _ => v,
    }
}

/// What the accepted message asks of the collaborators, after what bringing
/// the vault up to date asked.
pub open spec fn execute_actions(v: VaultView, env: Env, msg: ExecuteMsg) -> Seq<Action> {
    let target = v.chosen_target(hint_of(msg));
    match msg {
        ExecuteMsg::DeregisterValidator { validator } => seq![
            Action::Redelegate {
                from: validator,
                amount: v.validators[v.position_of(validator@)].delegated,
            },
        ],
        ExecuteMsg::Bond { .. } => seq![
            Action::Delegate { validator: v.validators[target].address, amount: env.funds },
            Action::Mint {
                token: Token::Claim,
                recipient: env.sender,
                amount: v.bond_minted(env.funds) as u128,
            },
        ],
        ExecuteMsg::BondSplit { .. } => seq![
            Action::Delegate { validator: v.validators[target].address, amount: env.funds },
            Action::Mint {
                token: Token::Yield,
                recipient: env.sender,
                amount: v.bond_minted(env.funds) as u128,
            },
            Action::Mint {
                token: Token::Principal,
                recipient: env.sender,
                amount: v.bond_minted(env.funds) as u128,
            },
        ],
        ExecuteMsg::UpdateGlobalIndex { .. } => seq![Action::ForwardRewards],
        ExecuteMsg::WithdrawUnbonded {  } => seq![
            Action::Send { recipient: env.sender, amount: v.withdraw_paid(env.sender@) as u128 },
        ],
        ExecuteMsg::Receive(received) => seq![
            Action::Burn { token: Token::Claim, owner: env.contract, amount: received.amount },
        ],
        ExecuteMsg::Split { amount } => seq![
            Action::Burn { token: Token::Claim, owner: env.sender, amount },
            Action::Mint { token: Token::Yield, recipient: env.sender, amount },
            Action::Mint { token: Token::Principal, recipient: env.sender, amount },
        ],
        ExecuteMsg::Merge { amount } => seq![
            Action::Burn { token: Token::Yield, owner: env.sender, amount },
            Action::Burn { token: Token::Principal, owner: env.sender, amount },
            Action::Mint { token: Token::Claim, recipient: env.sender, amount },
        ],
        ExecuteMsg::DepositAirdropReward { airdrop_token_contract } => seq![
            Action::DepositAirdropReward { airdrop_token_contract },
        ],
        ExecuteMsg::ClaimAirdrop { airdrop_token_contract, airdrop_contract, claim_msg } => seq![
            Action::ClaimAirdrop { airdrop_token_contract, airdrop_contract, claim_msg },
        ],
        _ => Seq::empty(),
    }
}

/// The validator hint a bonding message carries.
pub open spec fn hint_of(msg: ExecuteMsg) -> Option<String> {
    match msg {
        ExecuteMsg::Bond { validator } => validator,
        ExecuteMsg::BondSplit { validator } => validator,
        _ => None,
    }
}

/// Whether `after` and `actions` are what the accepted message makes of the
/// up-to-date vault `v`, with `prefix` the actions asked for before.
pub open spec fn routed(
    v: VaultView,
    env: Env,
    msg: ExecuteMsg,
    after: VaultView,
    prefix: Seq<Action>,
    actions: Seq<Action>,
) -> bool {
    &&& after == execute_state(v, env, msg)
    &&& actions == prefix + execute_actions(v, env, msg)
}

/// Whether `r` and `after` are the outcome of the message on the up-to-date
/// vault `v`: the refusal that is due, or the new vault and the actions.
pub open spec fn outcome(
    v: VaultView,
    env: Env,
    msg: ExecuteMsg,
    prefix: Seq<Action>,
    after: VaultView,
    r: Result<Vec<Action>, VaultError>,
) -> bool {
    match execute_error(v, env, msg) {
        Some(e) => r == Err::<Vec<Action>, VaultError>(e),
        None => r is Ok && routed(v, env, msg, after, prefix, r->Ok_0@),
    }
}

/// Whether `after` and `actions` are what the accepted message makes of the
/// vault `before`, which is first brought up to date.
pub open spec fn executed(
    before: VaultView,
    env: Env,
    msg: ExecuteMsg,
    after: VaultView,
    actions: Seq<Action>,
) -> bool {
    routed(
        before.after_advance(env.now, env.vault_balance, env.total_issued),
        env,
        msg,
        after,
        advance_actions(before, env.now),
        actions,
    )
}

impl Vault {
    /// Routes one kind of message; see `execute`.
    fn route_update_config(
        &mut self,
        env: &Env,
        owner: Option<String>,
        yluna_staking: Option<String>,
        cluna_contract: Option<String>,
        yluna_contract: Option<String>,
        pluna_contract: Option<String>,
        airdrop_registry_contract: Option<String>,
        actions: Vec<Action>,
    ) -> (r: Result<Vec<Action>, VaultError>)
        requires
            old(self).wf(),
        ensures
            final(self).wf(),
            outcome(
                old(self)@,
                *env,
                ExecuteMsg::UpdateConfig {
                    owner,
                    yluna_staking,
                    cluna_contract,
                    yluna_contract,
                    pluna_contract,
                    airdrop_registry_contract,
                },
                actions@,
                final(self)@,
                r,
            ),
    {
        let ghost msg = ExecuteMsg::UpdateConfig {
            owner,
            yluna_staking,
            cluna_contract,
            yluna_contract,
            pluna_contract,
            airdrop_registry_contract,
        };
        let _ = match self.update_config(
            &env.sender,
            owner,
            yluna_staking,
            cluna_contract,
            yluna_contract,
            pluna_contract,
            airdrop_registry_contract,
        ) {
            Ok(done) => done,
            Err(e) => { return Err(e); },
        };
        proof {
            assert(actions@ =~= actions@ + execute_actions(old(self)@, *env, msg));
            assert(routed(old(self)@, *env, msg, self@, actions@, actions@));
        }
        Ok(actions)
    }

    /// Routes one kind of message; see `execute`.
    fn route_register(&mut self, env: &Env, validator: String, actions: Vec<Action>) -> (r: Result<
        Vec<Action>,
        VaultError,
    >)
        requires
            old(self).wf(),
        ensures
            final(self).wf(),
            outcome(
                old(self)@,
                *env,
                ExecuteMsg::RegisterValidator { validator },
                actions@,
                final(self)@,
                r,
            ),
    {
        let ghost msg = ExecuteMsg::RegisterValidator { validator };
        let _ = match self.register_validator(&env.sender, validator) {
            Ok(done) => done,
            Err(e) => { return Err(e); },
        };
        proof {
            assert(actions@ =~= actions@ + execute_actions(old(self)@, *env, msg));
            assert(routed(old(self)@, *env, msg, self@, actions@, actions@));
        }
        Ok(actions)
    }

    /// Routes one kind of message; see `execute`.
    fn route_deregister(&mut self, env: &Env, validator: String, actions: Vec<Action>) -> (r: Result<
        Vec<Action>,
        VaultError,
    >)
        requires
            old(self).wf(),
        ensures
            final(self).wf(),
            outcome(
                old(self)@,
                *env,
                ExecuteMsg::DeregisterValidator { validator },
                actions@,
                final(self)@,
                r,
            ),
    {
        let ghost msg = ExecuteMsg::DeregisterValidator { validator };
        let ghost prefix = actions@;
        let mut actions = actions;
        let amount: u128 = match self.deregister_validator(&env.sender, &validator) {
            Ok(done) => done,
            Err(e) => { return Err(e); },
        };
        actions.push(Action::Redelegate { from: validator, amount });
        proof {
            assert(actions@ =~= prefix + execute_actions(old(self)@, *env, msg));
            assert(routed(old(self)@, *env, msg, self@, prefix, actions@));
        }
        Ok(actions)
    }

    /// Routes one kind of message; see `execute`.
    fn route_update_params(
        &mut self,
        env: &Env,
        epoch_period: Option<u64>,
        unbonding_period: Option<u64>,
        peg_recovery_fee: Option<Decimal>,
        er_threshold: Option<Decimal>,
        actions: Vec<Action>,
    ) -> (r: Result<Vec<Action>, VaultError>)
        requires
            old(self).wf(),
        ensures
            final(self).wf(),
            outcome(
                old(self)@,
                *env,
                ExecuteMsg::UpdateParams {
                    epoch_period,
                    unbonding_period,
                    peg_recovery_fee,
                    er_threshold,
                },
                actions@,
                final(self)@,
                r,
            ),
    {
        let ghost msg = ExecuteMsg::UpdateParams {
            epoch_period,
            unbonding_period,
            peg_recovery_fee,
            er_threshold,
        };
        let _ = match self.update_params(
            &env.sender,
            epoch_period,
            unbonding_period,
            peg_recovery_fee,
            er_threshold,
        ) {
            Ok(done) => done,
            Err(e) => { return Err(e); },
        };
        proof {
            assert(actions@ =~= actions@ + execute_actions(old(self)@, *env, msg));
            assert(routed(old(self)@, *env, msg, self@, actions@, actions@));
        }
        Ok(actions)
    }

    /// Routes one kind of message; see `execute`.
    fn route_bond(&mut self, env: &Env, validator: Option<String>, actions: Vec<Action>) -> (r: Result<
        Vec<Action>,
        VaultError,
    >)
        requires
            old(self).wf(),
        ensures
            final(self).wf(),
            outcome(old(self)@, *env, ExecuteMsg::Bond { validator }, actions@, final(self)@, r),
    {
        let ghost msg = ExecuteMsg::Bond { validator };
        let ghost prefix = actions@;
        let mut actions = actions;
        let receipt = match self.bond(env.funds, &validator, env.now, env.total_issued) {
            Ok(done) => done,
            Err(e) => { return Err(e); },
        };
        actions.push(
            Action::Delegate {
                validator: self.registry.validators[receipt.target].address.clone(),
                amount: env.funds,
            },
        );
        actions.push(
            Action::Mint { token: Token::Claim, recipient: env.sender.clone(), amount: receipt.minted },
        );
        proof {
            old(self)@.lemma_target_unique(validator, receipt.target as int);
            assert(actions@ =~= prefix + execute_actions(old(self)@, *env, msg));
            assert(routed(old(self)@, *env, msg, self@, prefix, actions@));
        }
        Ok(actions)
    }

    /// Routes one kind of message; see `execute`.
    fn route_bond_split(&mut self, env: &Env, validator: Option<String>, actions: Vec<Action>) -> (r:
        Result<Vec<Action>, VaultError>)
        requires
            old(self).wf(),
        ensures
            final(self).wf(),
            outcome(
                old(self)@,
                *env,
                ExecuteMsg::BondSplit { validator },
                actions@,
                final(self)@,
                r,
            ),
    {
        let ghost msg = ExecuteMsg::BondSplit { validator };
        let ghost prefix = actions@;
        let mut actions = actions;
        let receipt = match self.bond(env.funds, &validator, env.now, env.total_issued) {
            Ok(done) => done,
            Err(e) => { return Err(e); },
        };
        if env.holdings.yield_token.checked_add(receipt.minted).is_none()
            || env.holdings.principal.checked_add(receipt.minted).is_none() {
            return Err(VaultError::InvalidAmount);
        }
        actions.push(
            Action::Delegate {
                validator: self.registry.validators[receipt.target].address.clone(),
                amount: env.funds,
            },
        );
        actions.push(
            Action::Mint { token: Token::Yield, recipient: env.sender.clone(), amount: receipt.minted },
        );
        actions.push(
            Action::Mint {
                token: Token::Principal,
                recipient: env.sender.clone(),
                amount: receipt.minted,
            },
        );
        proof {
            old(self)@.lemma_target_unique(validator, receipt.target as int);
            assert(actions@ =~= prefix + execute_actions(old(self)@, *env, msg));
            assert(routed(old(self)@, *env, msg, self@, prefix, actions@));
        }
        Ok(actions)
    }

    /// Routes one kind of message; see `execute`.
    fn route_withdraw(&mut self, env: &Env, actions: Vec<Action>) -> (r: Result<Vec<Action>, VaultError>)
        requires
            old(self).wf(),
        ensures
            final(self).wf(),
            outcome(old(self)@, *env, ExecuteMsg::WithdrawUnbonded {  }, actions@, final(self)@, r),
    {
        let ghost msg = ExecuteMsg::WithdrawUnbonded {  };
        let ghost prefix = actions@;
        let mut actions = actions;
        let amount: u128 = match self.withdraw_unbonded(&env.sender) {
            Ok(done) => done,
            Err(e) => { return Err(e); },
        };
        actions.push(Action::Send { recipient: env.sender.clone(), amount });
        proof {
            assert(actions@ =~= prefix + execute_actions(old(self)@, *env, msg));
            assert(routed(old(self)@, *env, msg, self@, prefix, actions@));
        }
        Ok(actions)
    }

    /// Routes one kind of message; see `execute`.
    fn route_check_slashing(&mut self, env: &Env, actions: Vec<Action>) -> (r: Result<
        Vec<Action>,
        VaultError,
    >)
        requires
            old(self).wf(),
        ensures
            final(self).wf(),
            outcome(old(self)@, *env, ExecuteMsg::CheckSlashing {  }, actions@, final(self)@, r),
    {
        let ghost msg = ExecuteMsg::CheckSlashing {  };
        let _ = match self.check_slashing(env.delegated_balance, env.now, env.total_issued) {
            Ok(done) => done,
            Err(e) => { return Err(e); },
        };
        proof {
            assert(actions@ =~= actions@ + execute_actions(old(self)@, *env, msg));
            assert(routed(old(self)@, *env, msg, self@, actions@, actions@));
        }
        Ok(actions)
    }

    /// Routes one kind of message; see `execute`.
    fn route_receive(&mut self, env: &Env, received: ReceiveMsg, actions: Vec<Action>) -> (r: Result<
        Vec<Action>,
        VaultError,
    >)
        requires
            old(self).wf(),
        ensures
            final(self).wf(),
            outcome(old(self)@, *env, ExecuteMsg::Receive(received), actions@, final(self)@, r),
    {
        let ghost msg = ExecuteMsg::Receive(received);
        let ghost prefix = actions@;
        let mut actions = actions;
        let trusted: bool = match &self.config.cluna_contract {
            Some(token) => *token == env.sender,
            None => false,
        };
        if !trusted {
            return Err(VaultError::Unauthorized);
        }
        match received.hook {
            Cw20HookMsg::Unbond {  } => {
                let _ = match self.unbond(
                    &received.sender,
                    received.amount,
                    env.holdings.claim,
                    env.now,
                    env.total_issued,
                ) {
                    Ok(done) => done,
                    Err(e) => { return Err(e); },
                };
            },
        }
        actions.push(
            Action::Burn { token: Token::Claim, owner: env.contract.clone(), amount: received.amount },
        );
        proof {
            assert(actions@ =~= prefix + execute_actions(old(self)@, *env, msg));
            assert(routed(old(self)@, *env, msg, self@, prefix, actions@));
        }
        Ok(actions)
    }

    /// Routes one kind of message; see `execute`.
    fn route_tokens(&self, env: &Env, msg: ExecuteMsg, actions: Vec<Action>) -> (r: Result<
        Vec<Action>,
        VaultError,
    >)
        requires
            self.wf(),
            msg is Split || msg is Merge || msg is UpdateGlobalIndex || msg is DepositAirdropReward
                || msg is ClaimAirdrop,
        ensures
            outcome(self@, *env, msg, actions@, self@, r),
    {
        let ghost prefix = actions@;
        let mut actions = actions;
        match msg {
            ExecuteMsg::Split { amount } => {
                let _ = match split(env.holdings, amount) {
                    Ok(done) => done,
                    Err(e) => { return Err(e); },
                };
                actions.push(
                    Action::Burn { token: Token::Claim, owner: env.sender.clone(), amount },
                );
                actions.push(
                    Action::Mint { token: Token::Yield, recipient: env.sender.clone(), amount },
                );
                actions.push(
                    Action::Mint { token: Token::Principal, recipient: env.sender.clone(), amount },
                );
            },
            ExecuteMsg::Merge { amount } => {
                let _ = match merge(env.holdings, amount) {
                    Ok(done) => done,
                    Err(e) => { return Err(e); },
                };
                actions.push(
                    Action::Burn { token: Token::Yield, owner: env.sender.clone(), amount },
                );
                actions.push(
                    Action::Burn { token: Token::Principal, owner: env.sender.clone(), amount },
                );
                actions.push(
                    Action::Mint { token: Token::Claim, recipient: env.sender.clone(), amount },
                );
            },
            ExecuteMsg::DepositAirdropReward { airdrop_token_contract } => {
                if env.sender != env.contract {
                    return Err(VaultError::Unauthorized);
                }
                actions.push(Action::DepositAirdropReward { airdrop_token_contract });
            },
            ExecuteMsg::ClaimAirdrop { airdrop_token_contract, airdrop_contract, claim_msg } => {
                if env.sender != env.contract {
                    return Err(VaultError::Unauthorized);
                }
                actions.push(
                    Action::ClaimAirdrop { airdrop_token_contract, airdrop_contract, claim_msg },
                );
            },
            _ => {
                actions.push(Action::ForwardRewards);
            },
        }
        proof {
            assert(actions@ =~= prefix + execute_actions(self@, *env, msg));
            assert(routed(self@, *env, msg, self@, prefix, actions@));
        }
        Ok(actions)
    }

    /// Carries out one message.
    ///
    /// The vault is first brought up to date at `env.now`: the open batch is
    /// closed if its epoch is over and every releasable batch is released.
    /// Then the message is routed to its operation. The result is the new
    /// vault and the actions to perform, or the reason for the refusal.
    pub fn execute(self, env: &Env, msg: ExecuteMsg) -> (r: Result<(Vault, Vec<Action>), VaultError>)
        requires
            self.wf(),
        ensures
            match execute_error(
                self@.after_advance(env.now, env.vault_balance, env.total_issued),
                *env,
                msg,
            ) {
                Some(e) => r == Err::<(Vault, Vec<Action>), VaultError>(e),
                None => r is Ok && r->Ok_0.0.wf() && executed(
                    self@,
                    *env,
                    msg,
                    r->Ok_0.0@,
                    r->Ok_0.1@,
                ),
            },
    {
        let mut vault = self;
        let mut actions: Vec<Action> = Vec::new();
        let report: AdvanceReport = vault.advance_batches(
            env.now,
            env.vault_balance,
            env.total_issued,
        );
        if let Some(amount) = report.closed {
            actions.push(Action::Undelegate { amount });
        }
        let ghost v = vault@;
        let ghost prefix = actions@;
        assert(prefix =~= advance_actions(self@, env.now));
        let routed_to: Result<Vec<Action>, VaultError> = match msg {
            ExecuteMsg::UpdateConfig {
                owner,
                yluna_staking,
                cluna_contract,
                yluna_contract,
                pluna_contract,
                airdrop_registry_contract,
            } => vault.route_update_config(
                env,
                owner,
                yluna_staking,
                cluna_contract,
                yluna_contract,
                pluna_contract,
                airdrop_registry_contract,
                actions,
            ),
            ExecuteMsg::RegisterValidator { validator } => vault.route_register(
                env,
                validator,
                actions,
            ),
            ExecuteMsg::DeregisterValidator { validator } => vault.route_deregister(
                env,
                validator,
                actions,
            ),
            ExecuteMsg::UpdateParams { epoch_period, unbonding_period, peg_recovery_fee, er_threshold } => vault.route_update_params(
                env,
                epoch_period,
                unbonding_period,
                peg_recovery_fee,
                er_threshold,
                actions,
            ),
            ExecuteMsg::Bond { validator } => vault.route_bond(env, validator, actions),
            ExecuteMsg::BondSplit { validator } => vault.route_bond_split(env, validator, actions),
            ExecuteMsg::WithdrawUnbonded {  } => vault.route_withdraw(env, actions),
            ExecuteMsg::CheckSlashing {  } => vault.route_check_slashing(env, actions),
            ExecuteMsg::Receive(received) => vault.route_receive(env, received, actions),
            other => vault.route_tokens(env, other, actions),
        };
        assert(outcome(v, *env, msg, prefix, vault@, routed_to));
        match routed_to {
            Ok(all) => {
                Ok((vault, all))
            },
            Err(e) => Err(e),
        }
    }
}

} // verus!
