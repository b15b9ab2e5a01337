//! Operations reserved to the owner.

use vstd::prelude::*;
use crate::decimal::{Decimal, DECIMAL_FRACTIONAL};
use crate::msg::{Config, Parameters, VaultError};
use crate::registry::{listed, without, Validator};
use crate::vault::{Vault, VaultView};

verus! {

/// `given` where there is one, else `kept`.
pub open spec fn or_kept<T>(given: Option<T>, kept: T) -> T {
    match given {
        Some(v) => v,
        None => kept,
    }
}

/// `given` where there is one, else `kept`.
pub open spec fn or_kept_opt<T>(given: Option<T>, kept: Option<T>) -> Option<T> {
    match given {
        Some(v) => Some(v),
        None => kept,
    }
}

impl VaultView {
    /// Whether `sender` is the owner.
    pub open spec fn owned_by(self, sender: Seq<char>) -> bool {
        self.config.creator@ == sender
    }

    /// Why registering `validator` is refused, if it is.
    pub open spec fn register_error(self, sender: Seq<char>, validator: Seq<char>) -> Option<VaultError> {
        if !self.owned_by(sender) {
            Some(VaultError::Unauthorized)
        } else if listed(self.validators, validator) {
            Some(VaultError::ValidatorAlreadyWhitelisted)
        } else {
            None
        }
    }

    /// Why deregistering `validator` is refused, if it is.
    pub open spec fn deregister_error(self, sender: Seq<char>, validator: Seq<char>) -> Option<VaultError> {
        if !self.owned_by(sender) {
            Some(VaultError::Unauthorized)
        } else if !listed(self.validators, validator) {
            Some(VaultError::ValidatorNotWhitelisted)
        } else if self.validators.len() == 1 && self.validators[0].delegated > 0 {
            Some(VaultError::NoValidatorsRegistered)
        } else {
            None
        }
    }

    /// The position of `validator` on the whitelist.
    pub open spec fn position_of(self, validator: Seq<char>) -> int {
        choose|k: int|
            0 <= k < self.validators.len() && (#[trigger] self.validators[k]).address@ == validator
    }

    /// Why a change of parameters is refused, if it is.
    pub open spec fn params_error(self, sender: Seq<char>, peg_recovery_fee: Option<Decimal>) -> Option<
        VaultError,
    > {
        if !self.owned_by(sender) {
            Some(VaultError::Unauthorized)
        } else if peg_recovery_fee is Some && peg_recovery_fee->0.atomics > DECIMAL_FRACTIONAL {
            Some(VaultError::InvalidAmount)
        } else {
            None
        }
    }
}

impl Vault {
    /// Whether `sender` is the owner.
    pub fn is_owner(&self, sender: &String) -> (b: bool)
        ensures
            b == self@.owned_by(sender@),
    {
        self.config.creator == *sender
    }

    /// Puts `validator` on the whitelist, with no stake. Owner only.
    pub fn register_validator(&mut self, sender: &String, validator: String) -> (r: Result<(), VaultError>)
        requires
            old(self).wf(),
        ensures
            final(self).wf(),
            match old(self)@.register_error(sender@, validator@) {
                Some(e) => r == Err::<(), VaultError>(e) && final(self)@ == old(self)@,
                None => r is Ok && final(self)@ == (VaultView {
                    validators: old(self)@.validators.push(
                        Validator { address: validator, delegated: 0 },
                    ),
                    ..old(self)@
                }),
            },
    {
        if !self.is_owner(sender) {
            return Err(VaultError::Unauthorized);
        }
        self.registry.register(validator)
    }

    /// Takes `validator` off the whitelist and spreads its stake over the
    /// validators that remain, so that no stake is lost. Returns the stake
    /// moved. Owner only.
    pub fn deregister_validator(&mut self, sender: &String, validator: &String) -> (r: Result<
        u128,
        VaultError,
    >)
        requires
            old(self).wf(),
        ensures
            final(self).wf(),
            final(self)@.state == old(self)@.state,
            final(self)@.total_delegated == old(self)@.total_delegated,
            match old(self)@.deregister_error(sender@, validator@) {
                Some(e) => r == Err::<u128, VaultError>(e) && final(self)@ == old(self)@,
                None => {
                    let k = old(self)@.position_of(validator@);
                    &&& r == Ok::<u128, VaultError>(old(self)@.validators[k].delegated)
                    &&& final(self)@ == (VaultView {
                        validators: without(old(self)@.validators, k),
                        ..old(self)@
                    })
                },
            },
    {
        if !self.is_owner(sender) {
            return Err(VaultError::Unauthorized);
        }
        self.registry.deregister(validator)
    }

    /// Changes the parameters that are given and keeps the others. A
    /// recovery fee above one is refused. Owner only.
    pub fn update_params(
        &mut self,
        sender: &String,
        epoch_period: Option<u64>,
        unbonding_period: Option<u64>,
        peg_recovery_fee: Option<Decimal>,
        er_threshold: Option<Decimal>,
    ) -> (r: Result<(), VaultError>)
        requires
            old(self).wf(),
        ensures
            final(self).wf(),
            match old(self)@.params_error(sender@, peg_recovery_fee) {
                Some(e) => r == Err::<(), VaultError>(e) && final(self)@ == old(self)@,
                None => r is Ok && final(self)@ == (VaultView {
                    params: Parameters {
                        epoch_period: or_kept(epoch_period, old(self)@.params.epoch_period),
                        unbonding_period: or_kept(
                            unbonding_period,
                            old(self)@.params.unbonding_period,
                        ),
                        peg_recovery_fee: or_kept(
                            peg_recovery_fee,
                            old(self)@.params.peg_recovery_fee,
                        ),
                        er_threshold: or_kept(er_threshold, old(self)@.params.er_threshold),
                        ..old(self)@.params
                    },
                    ..old(self)@
                }),
            },
    {
        if !self.is_owner(sender) {
            return Err(VaultError::Unauthorized);
        }
        if let Some(fee) = peg_recovery_fee {
            if fee.atomics > DECIMAL_FRACTIONAL {
                return Err(VaultError::InvalidAmount);
            }
            self.params.peg_recovery_fee = fee;
        }
        if let Some(p) = epoch_period {
            self.params.epoch_period = p;
        }
        if let Some(p) = unbonding_period {
            self.params.unbonding_period = p;
        }
        if let Some(t) = er_threshold {
            self.params.er_threshold = t;
        }
        Ok(())
    }

    /// Replaces the owner and the collaborator addresses that are given and
    /// keeps the others. Owner only.
    pub fn update_config(
        &mut self,
        sender: &String,
        owner: Option<String>,
        yluna_staking: Option<String>,
        cluna_contract: Option<String>,
        yluna_contract: Option<String>,
        pluna_contract: Option<String>,
        airdrop_registry_contract: Option<String>,
    ) -> (r: Result<(), VaultError>)
        requires
            old(self).wf(),
        ensures
            final(self).wf(),
            !old(self)@.owned_by(sender@) ==> r == Err::<(), VaultError>(VaultError::Unauthorized)
                && final(self)@ == old(self)@,
            old(self)@.owned_by(sender@) ==> r is Ok && final(self)@ == (VaultView {
                config: Config {
                    creator: or_kept(owner, old(self)@.config.creator),
                    yluna_staking: or_kept_opt(yluna_staking, old(self)@.config.yluna_staking),
                    cluna_contract: or_kept_opt(cluna_contract, old(self)@.config.cluna_contract),
                    yluna_contract: or_kept_opt(yluna_contract, old(self)@.config.yluna_contract),
                    pluna_contract: or_kept_opt(pluna_contract, old(self)@.config.pluna_contract),
                    airdrop_registry_contract: or_kept_opt(
                        airdrop_registry_contract,
                        old(self)@.config.airdrop_registry_contract,
                    ),
                },
                ..old(self)@
            }),
    {
        if !self.is_owner(sender) {
            return Err(VaultError::Unauthorized);
        }
        if let Some(o) = owner {
            self.config.creator = o;
        }
        if yluna_staking.is_some() {
            self.config.yluna_staking = yluna_staking;
        }
        if cluna_contract.is_some() {
            self.config.cluna_contract = cluna_contract;
        }
        if yluna_contract.is_some() {
            self.config.yluna_contract = yluna_contract;
        }
        if pluna_contract.is_some() {
            self.config.pluna_contract = pluna_contract;
        }
        if airdrop_registry_contract.is_some() {
            self.config.airdrop_registry_contract = airdrop_registry_contract;
        }
        Ok(())
    }
}

} // verus!
