//! The exchange-rate ledger: aggregate bonded amount and conversion rate.

use vstd::prelude::*;
use crate::decimal::{checked_multiply_ratio, ratio_fits, ratio_floor, Decimal, DECIMAL_FRACTIONAL};

verus! {

/// The single mutable record of the vault's aggregate accounting.
#[derive(Clone, Copy, Debug, PartialEq, Eq, Structural)]
pub struct State {
    pub exchange_rate: Decimal,
    pub total_bond_amount: u128,
    pub last_index_modification: u64,
    pub prev_vault_balance: u128,
    pub actual_unbonded_amount: u128,
    pub last_unbonded_time: u64,
    pub last_processed_batch: u64,
}

/// The rate, in atomic units, that belongs to `bonded` units of stake backing
/// `supply` units of claims: one when either side is zero, else their ratio
/// rounded down.
pub open spec fn exchange_rate_for(bonded: int, supply: int) -> int {
    if bonded == 0 || supply == 0 {
        DECIMAL_FRACTIONAL as int
    } else {
        ratio_floor(bonded, DECIMAL_FRACTIONAL as int, supply)
    }
}

/// Whether the rate for `bonded` over `supply` can be represented.
pub open spec fn exchange_rate_fits(bonded: int, supply: int) -> bool {
    bonded == 0 || supply == 0 || ratio_fits(bonded, DECIMAL_FRACTIONAL as int, supply)
}

/// Whether the rate for `bonded` over `supply` can be represented and is
/// above zero, as a rate in use has to be.
pub open spec fn exchange_rate_sound(bonded: int, supply: int) -> bool {
    exchange_rate_fits(bonded, supply) && exchange_rate_for(bonded, supply) > 0
}

/// Decides whether the rate for `bonded` over `supply` can be represented
/// and is above zero.
pub fn rate_is_sound(bonded: u128, supply: u128) -> (b: bool)
    ensures
        b == exchange_rate_sound(bonded as int, supply as int),
{
    if bonded == 0 || supply == 0 {
        true
    } else {
        match checked_multiply_ratio(bonded, DECIMAL_FRACTIONAL, supply) {
            Some(rate) => rate > 0,
            None => false,
        }
    }
}

impl Default for State {
    fn default() -> (s: State)
        ensures
            s.exchange_rate.atomics == 0,
            s.total_bond_amount == 0,
            s.last_index_modification == 0,
            s.prev_vault_balance == 0,
            s.actual_unbonded_amount == 0,
            s.last_unbonded_time == 0,
            s.last_processed_batch == 0,
    {
        State {
            exchange_rate: Decimal::zero(),
            total_bond_amount: 0,
            last_index_modification: 0,
            prev_vault_balance: 0,
            actual_unbonded_amount: 0,
            last_unbonded_time: 0,
            last_processed_batch: 0,
        }
    }
}

impl State {
    /// Recomputes the exchange rate from the bonded total and the claims
    /// outstanding, `total_issued + requested_with_fee`: one where either is
    /// zero, their ratio rounded down otherwise. The rate that results is
    /// above zero, and nothing else changes.
    ///
    /// The claims must add up within 128 bits, and the ratio must be one
    /// that can be represented and does not round down to zero.
    pub fn update_exchange_rate(&mut self, total_issued: u128, requested_with_fee: u128)
        requires
            total_issued + requested_with_fee <= u128::MAX,
            exchange_rate_sound(
                old(self).total_bond_amount as int,
                total_issued + requested_with_fee,
            ),
        ensures
            final(self).exchange_rate.atomics > 0,
            final(self).exchange_rate.atomics as int == exchange_rate_for(
                old(self).total_bond_amount as int,
                total_issued + requested_with_fee,
            ),
            *final(self) == (State { exchange_rate: final(self).exchange_rate, ..*old(self) }),
    {
        let actual_supply: u128 = total_issued + requested_with_fee;
        if self.total_bond_amount == 0 || actual_supply == 0 {
            self.exchange_rate = Decimal::one();
        } else {
            self.exchange_rate = Decimal::from_ratio(self.total_bond_amount, actual_supply);
        }
    }

    /// Recomputes the exchange rate where the claims add up within 128 bits
    /// and the rate can be represented and is above zero, and reports
    /// whether it did; otherwise the state is left as it was.
    pub fn try_update_exchange_rate(&mut self, total_issued: u128, requested_with_fee: u128) -> (done:
        bool)
        ensures
            done == (total_issued + requested_with_fee <= u128::MAX && exchange_rate_sound(
                old(self).total_bond_amount as int,
                total_issued + requested_with_fee,
            )),
            done ==> final(self).exchange_rate.atomics > 0,
            done ==> final(self).exchange_rate.atomics as int == exchange_rate_for(
                old(self).total_bond_amount as int,
                total_issued + requested_with_fee,
            ),
            *final(self) == (State { exchange_rate: final(self).exchange_rate, ..*old(self) }),
            !done ==> *final(self) == *old(self),
    {
        let supply: u128 = match total_issued.checked_add(requested_with_fee) {
            Some(s) => s,
            None => { return false; },
        };
        if !rate_is_sound(self.total_bond_amount, supply) {
            return false;
        }
        self.update_exchange_rate(total_issued, requested_with_fee);
        true
    }
}

} // verus!
