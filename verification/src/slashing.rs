//! Detection of lost stake by comparing the balance the ledger expects with
//! the balance that is really there.

use vstd::prelude::*;
use crate::decimal::Decimal;
use crate::msg::VaultError;
use crate::state::{exchange_rate_for, exchange_rate_sound, rate_is_sound, State};
use crate::vault::{Vault, VaultView};

verus! {

/// The balance the ledger expects: what was seen last, plus what was bonded
/// since, minus what was released since.
pub open spec fn expected_balance_spec(prev: int, bonded_since: int, unbonded_since: int) -> int {
    prev + bonded_since - unbonded_since
}

/// The loss to absorb: how far `actual` falls short of `expected`, and zero
/// when it does not fall short.
pub open spec fn shortfall_spec(expected: int, actual: int) -> int {
    if actual < expected {
        expected - actual
    } else {
        0
    }
}

/// The expected balance, or `None` when it is negative or exceeds 128 bits.
pub fn expected_balance(prev: u128, bonded_since: u128, unbonded_since: u128) -> (r: Option<u128>)
    ensures
        r is Some <==> 0 <= expected_balance_spec(
            prev as int,
            bonded_since as int,
            unbonded_since as int,
        ) <= u128::MAX,
        r is Some ==> r->0 as int == expected_balance_spec(
            prev as int,
            bonded_since as int,
            unbonded_since as int,
        ),
{
    if prev >= unbonded_since {
        (prev - unbonded_since).checked_add(bonded_since)
    } else if bonded_since >= unbonded_since - prev {
        Some(bonded_since - (unbonded_since - prev))
    } else {
        None
    }
}

/// How much of the expected balance is missing from the actual one.
pub fn shortfall(expected: u128, actual: u128) -> (r: u128)
    ensures
        r as int == shortfall_spec(expected as int, actual as int),
{
    if actual < expected {
        expected - actual
    } else {
        0
    }
}

impl VaultView {
    /// The balance the ledger expects to find delegated.
    pub open spec fn expected_balance(self) -> int {
        expected_balance_spec(
            self.state.prev_vault_balance as int,
            self.bonded_since_check as int,
            self.unbonded_since_check as int,
        )
    }

    /// Why a slashing check is refused, if it is: the balance is not known,
    /// or a loss was found and the rate that follows cannot be represented.
    pub open spec fn slashing_error(self, actual: Option<u128>, total_issued: u128) -> Option<VaultError> {
        if actual is None {
            Some(VaultError::SlashingCorrectionFailed)
        } else if shortfall_spec(self.expected_balance(), actual->0 as int) > 0 && !(total_issued
            + self.pending() <= u128::MAX && exchange_rate_sound(
            actual->0 as int,
            total_issued + self.pending(),
        )) {
            Some(VaultError::InvalidAmount)
        } else {
            None
        }
    }

    /// The vault after a slashing check found `actual` delegated: where that
    /// is less than expected, the bonded total drops to it, the rate follows,
    /// and a new reconciliation cycle starts from it; otherwise nothing
    /// changes.
    pub open spec fn after_slashing_check(self, actual: u128, now: u64, total_issued: u128) -> VaultView {
        if shortfall_spec(self.expected_balance(), actual as int) > 0 {
            VaultView {
                state: State {
                    exchange_rate: Decimal {
                        atomics: exchange_rate_for(actual as int, total_issued + self.pending()) as u128,
                    },
                    total_bond_amount: actual,
                    prev_vault_balance: actual,
                    last_index_modification: now,
                    ..self.state
                },
                bonded_since_check: 0,
                unbonded_since_check: 0,
                ..self
            }
        } else {
            self
        }
    }
}

impl Vault {
    /// Compares the balance really delegated, `actual`, with the balance the
    /// ledger expects, and absorbs the difference where stake was lost.
    /// Returns the loss, which is zero where nothing is missing. A surplus is
    /// left alone.
    pub fn check_slashing(&mut self, actual: Option<u128>, now: u64, total_issued: u128) -> (r: Result<
        u128,
        VaultError,
    >)
        requires
            old(self).wf(),
        ensures
            final(self).wf(),
            old(self)@.expected_balance() == old(self)@.state.total_bond_amount,
            match old(self)@.slashing_error(actual, total_issued) {
                Some(e) => r == Err::<u128, VaultError>(e) && final(self)@ == old(self)@,
                None => r is Ok && r->Ok_0 == shortfall_spec(
                    old(self)@.expected_balance(),
                    actual->0 as int,
                ) && final(self)@ == old(self)@.after_slashing_check(actual->0, now, total_issued),
            },
    {
        let found: u128 = match actual {
            Some(a) => a,
            None => { return Err(VaultError::SlashingCorrectionFailed); },
        };
        let expected: u128 = match expected_balance(
            self.state.prev_vault_balance,
            self.bonded_since_check,
            self.unbonded_since_check,
        ) {
            Some(e) => e,
            None => { return Err(VaultError::InvalidAmount); },
        };
        let loss: u128 = shortfall(expected, found);
        if loss == 0 {
            return Ok(0);
        }
        let pending: u128 = self.current_batch.requested_with_fee + self.pending_closed;
        let supply: u128 = match total_issued.checked_add(pending) {
            Some(s) => s,
            None => { return Err(VaultError::InvalidAmount); },
        };
        if !rate_is_sound(found, supply) {
            return Err(VaultError::InvalidAmount);
        }
        self.state.total_bond_amount = found;
        self.state.prev_vault_balance = found;
        self.bonded_since_check = 0;
        self.unbonded_since_check = 0;
        self.state.update_exchange_rate(total_issued, pending);
        self.state.last_index_modification = now;
        Ok(loss)
    }
}

} // verus!
