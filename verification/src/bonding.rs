//! Bonding: stake comes in, claim tokens go out at the current rate.

use vstd::prelude::*;
use crate::decimal::{scaled, Decimal};
use crate::laws::Step;
use crate::msg::VaultError;
use crate::registry::{least_delegated_at, listed, with_stake};
use crate::state::{exchange_rate_for, exchange_rate_sound, rate_is_sound, State};
use crate::vault::{Vault, VaultView};

verus! {

/// What a successful bond did.
#[derive(Clone, Copy, Debug, PartialEq, Eq, Structural)]
pub struct BondReceipt {
    /// Position in the whitelist of the validator that received the stake.
    pub target: usize,
    /// Claim tokens to issue to the sender.
    pub minted: u128,
}

impl VaultView {
    /// Claim tokens that a bond of `amount` issues, over the integers.
    pub open spec fn bond_minted(self, amount: u128) -> int {
        scaled(amount as int, self.state.exchange_rate.atomics as int)
    }

    /// Claims outstanding once a bond of `amount` is done.
    pub open spec fn bond_supply(self, amount: u128, total_issued: u128) -> int {
        total_issued + self.bond_minted(amount) + self.pending()
    }

    /// Whether every number a bond of `amount` produces can be represented.
    pub open spec fn bond_fits(self, amount: u128, total_issued: u128) -> bool {
        &&& self.bond_minted(amount) <= u128::MAX
        &&& self.state.total_bond_amount + amount <= u128::MAX
        &&& self.total_delegated + amount <= u128::MAX
        &&& self.state.prev_vault_balance + self.bonded_since_check + amount <= u128::MAX
        &&& self.bond_supply(amount, total_issued) <= u128::MAX
        &&& exchange_rate_sound(
            self.state.total_bond_amount + amount,
            self.bond_supply(amount, total_issued),
        )
    }

    /// Why a bond of `amount` is refused, if it is.
    pub open spec fn bond_error(self, amount: u128, total_issued: u128) -> Option<VaultError> {
        if amount == 0 {
            Some(VaultError::ZeroAmount)
        } else if self.validators.len() == 0 {
            Some(VaultError::NoValidatorsRegistered)
        } else if !self.bond_fits(amount, total_issued) {
            Some(VaultError::InvalidAmount)
        } else {
            None
        }
    }

    /// Whether position `i` is where a bond with this hint delegates: the
    /// hinted validator where it is whitelisted, else the first validator
    /// with the least stake.
    pub open spec fn bond_target(self, hint: Option<String>, i: int) -> bool {
        &&& 0 <= i < self.validators.len()
        &&& if hint is Some && listed(self.validators, hint->0@) {
            self.validators[i].address@ == hint->0@
        } else {
            least_delegated_at(self.validators, i)
        }
    }

    /// The position a bond with this hint delegates to.
    pub open spec fn chosen_target(self, hint: Option<String>) -> int {
        choose|i: int| self.bond_target(hint, i)
    }

    /// A bond has one target only.
    pub proof fn lemma_target_unique(self, hint: Option<String>, i: int)
        requires
            self.wf(),
            self.bond_target(hint, i),
        ensures
            i == self.chosen_target(hint),
    {
        let j = self.chosen_target(hint);
        assert(self.bond_target(hint, j));
        if i != j {
            if hint is Some && listed(self.validators, hint->0@) {
                assert(self.validators[i].address@ == self.validators[j].address@);
            } else {
                assert(least_delegated_at(self.validators, i));
                assert(least_delegated_at(self.validators, j));
            }
        }
    }

    /// The vault after `amount` was bonded to the validator at `target`.
    pub open spec fn after_bond(self, target: int, amount: u128, now: u64, total_issued: u128) -> VaultView {
        VaultView {
            state: State {
                exchange_rate: Decimal {
                    atomics: exchange_rate_for(
                        self.state.total_bond_amount + amount,
                        self.bond_supply(amount, total_issued),
                    ) as u128,
                },
                total_bond_amount: (self.state.total_bond_amount + amount) as u128,
                last_index_modification: now,
                ..self.state
            },
            validators: self.validators.update(
                target,
                with_stake(
                    self.validators[target],
                    (self.validators[target].delegated + amount) as u128,
                ),
            ),
            total_delegated: (self.total_delegated + amount) as u128,
            bonded_since_check: (self.bonded_since_check + amount) as u128,
            ..self
        }
    }
}

impl Vault {
    /// Bonds `amount` of the underlying asset at time `now`, while
    /// `total_issued` claim tokens are outstanding.
    ///
    /// The stake goes to the hinted validator where it is whitelisted, else
    /// to the first validator with the least stake. The sender is owed
    /// `amount` times the exchange rate in claim tokens, rounded down. The
    /// bonded total grows by `amount` and the rate is recomputed for the new
    /// totals. A refused bond changes nothing.
    pub fn bond(&mut self, amount: u128, validator: &Option<String>, now: u64, total_issued: u128) -> (r:
        Result<BondReceipt, VaultError>)
        requires
            old(self).wf(),
        ensures
            final(self).wf(),
            match old(self)@.bond_error(amount, total_issued) {
                Some(e) => r == Err::<BondReceipt, VaultError>(e) && final(self)@ == old(self)@,
                None => r is Ok && old(self)@.bond_target(*validator, r->Ok_0.target as int)
                    && r->Ok_0.minted == old(self)@.bond_minted(amount) && final(self)@ == old(
                    self,
                )@.after_bond(r->Ok_0.target as int, amount, now, total_issued),
            },
            final(self)@ == old(self)@.step(
                Step::Bond { amount, validator: *validator, now, total_issued },
            ),
    {
        if amount == 0 {
            return Err(VaultError::ZeroAmount);
        }
        let target: usize = match self.registry.pick(validator) {
            Ok(i) => i,
            Err(e) => { return Err(e); },
        };
        let minted: u128 = match self.state.exchange_rate.checked_mul_floor(amount) {
            Some(m) => m,
            None => { return Err(VaultError::InvalidAmount); },
        };
        if self.registry.total_delegated.checked_add(amount).is_none() {
            return Err(VaultError::InvalidAmount);
        }
        let backing: u128 = self.state.prev_vault_balance + self.bonded_since_check;
        if backing.checked_add(amount).is_none() {
            return Err(VaultError::InvalidAmount);
        }
        let pending: u128 = self.current_batch.requested_with_fee + self.pending_closed;
        let issued: u128 = match total_issued.checked_add(minted) {
            Some(s) => s,
            None => { return Err(VaultError::InvalidAmount); },
        };
        let supply: u128 = match issued.checked_add(pending) {
            Some(s) => s,
            None => { return Err(VaultError::InvalidAmount); },
        };
        let bonded: u128 = self.state.total_bond_amount + amount;
        if !rate_is_sound(bonded, supply) {
            return Err(VaultError::InvalidAmount);
        }
        proof {
            self@.lemma_target_unique(*validator, target as int);
        }
        let delegated = self.registry.delegate(target, amount);
        assert(delegated is Ok);
        self.state.total_bond_amount = bonded;
        self.bonded_since_check = self.bonded_since_check + amount;
        self.state.update_exchange_rate(issued, pending);
        self.state.last_index_modification = now;
        Ok(BondReceipt { target, minted })
    }
}

} // verus!
