//! Withdrawal: paying out a user's claims on released batches.

use vstd::prelude::*;
use crate::batches::lemma_scaled_down;
use crate::decimal::{multiply_ratio, scaled, DECIMAL_FRACTIONAL};
use crate::laws::Step;
use crate::msg::{Parameters, UnbondHistory, VaultError};
use crate::state::State;
use crate::vault::{UnbondEntry, Vault, VaultView};

verus! {

/// Whether `e` is a claim of `user` on a batch that is released.
pub open spec fn settled(e: UnbondEntry, user: Seq<char>, history: Seq<UnbondHistory>) -> bool {
    e.user@ == user && e.batch_id < history.len() && history[e.batch_id as int].released
}

/// `amount` claim tokens at the rate batch `h` is paid at, rounded down.
pub open spec fn gross_payout(amount: u128, h: UnbondHistory) -> int {
    scaled(amount as int, h.withdraw_rate.atomics as int)
}

/// The recovery fee on `gross`: the fee fraction of it, rounded down, where
/// the batch was closed at a rate below the threshold, and nothing otherwise.
pub open spec fn recovery_fee(gross: int, h: UnbondHistory, params: Parameters) -> int {
    if h.applied_exchange_rate.atomics < params.er_threshold.atomics {
        scaled(gross, params.peg_recovery_fee.atomics as int)
    } else {
        0
    }
}

/// What `amount` claim tokens on batch `h` pay out after the fee.
pub open spec fn net_payout(amount: u128, h: UnbondHistory, params: Parameters) -> int {
    gross_payout(amount, h) - recovery_fee(gross_payout(amount, h), h, params)
}

/// Whether `user` has a claim on a released batch.
pub open spec fn has_settled(reqs: Seq<UnbondEntry>, user: Seq<char>, history: Seq<UnbondHistory>) -> bool {
    exists|i: int| 0 <= i < reqs.len() && settled(#[trigger] reqs[i], user, history)
}

/// The sum of what the claims of `user` on released batches pay out, or
/// `None` where a payout or the running sum exceeds 128 bits.
pub open spec fn settlement(
    reqs: Seq<UnbondEntry>,
    user: Seq<char>,
    history: Seq<UnbondHistory>,
    params: Parameters,
) -> Option<int>
    decreases reqs.len(),
{
    if reqs.len() == 0 {
        Some(0)
    } else {
        match settlement(reqs.drop_last(), user, history, params) {
            None => None,
            Some(t) => {
                let e = reqs.last();
                if settled(e, user, history) {
                    let h = history[e.batch_id as int];
                    if gross_payout(e.amount, h) > u128::MAX || t + net_payout(e.amount, h, params)
                        > u128::MAX {
                        None
                    } else {
                        Some(t + net_payout(e.amount, h, params))
                    }
                } else {
                    Some(t)
                }
            },
        }
    }
}

/// The claims that remain once those of `user` on released batches are
/// taken out, in their order.
pub open spec fn unsettled(reqs: Seq<UnbondEntry>, user: Seq<char>, history: Seq<UnbondHistory>) -> Seq<
    UnbondEntry,
>
    decreases reqs.len(),
{
    if reqs.len() == 0 {
        Seq::empty()
    } else if settled(reqs.last(), user, history) {
        unsettled(reqs.drop_last(), user, history)
    } else {
        unsettled(reqs.drop_last(), user, history).push(reqs.last())
    }
}

/// A sum that cannot be represented for the first `k` claims cannot be for all of them.
pub(crate) proof fn lemma_settlement_none(
    reqs: Seq<UnbondEntry>,
    user: Seq<char>,
    history: Seq<UnbondHistory>,
    params: Parameters,
    k: int,
)
    requires
        0 <= k <= reqs.len(),
        settlement(reqs.take(k), user, history, params) is None,
    ensures
        settlement(reqs, user, history, params) is None,
    decreases reqs.len() - k,
{
    if k == reqs.len() {
        assert(reqs.take(k) =~= reqs);
    } else {
        assert(reqs.take(k + 1).drop_last() =~= reqs.take(k));
        lemma_settlement_none(reqs, user, history, params, k + 1);
    }
}

/// No claim that remains after a withdrawal is one the withdrawal pays.
pub proof fn lemma_unsettled_has_none(reqs: Seq<UnbondEntry>, user: Seq<char>, history: Seq<UnbondHistory>)
    ensures
        !has_settled(unsettled(reqs, user, history), user, history),
    decreases reqs.len(),
{
    if reqs.len() > 0 {
        lemma_unsettled_has_none(reqs.drop_last(), user, history);
        let rest = unsettled(reqs.drop_last(), user, history);
        if !settled(reqs.last(), user, history) {
            assert forall|i: int| 0 <= i < rest.push(reqs.last()).len() implies !settled(
                #[trigger] rest.push(reqs.last())[i],
                user,
                history,
            ) by {
                if i < rest.len() {
                    assert(rest.push(reqs.last())[i] == rest[i]);
                }
            }
        }
    }
}

impl VaultView {
    /// Why a withdrawal by `user` is refused, if it is.
    pub open spec fn withdraw_error(self, user: Seq<char>) -> Option<VaultError> {
        if !has_settled(self.requests, user, self.history) {
            Some(VaultError::NothingToWithdraw)
        } else if settlement(self.requests, user, self.history, self.params) is None {
            Some(VaultError::InvalidAmount)
        } else {
            None
        }
    }

    /// What a withdrawal by `user` pays.
    pub open spec fn withdraw_paid(self, user: Seq<char>) -> int {
        settlement(self.requests, user, self.history, self.params)->0
    }

    /// How much of the released funds on hand a payment of `paid` uses up.
    pub open spec fn withdraw_drawn(self, paid: int) -> int {
        if paid < self.state.actual_unbonded_amount {
            paid
        } else {
            self.state.actual_unbonded_amount as int
        }
    }

    /// The vault after `user` withdrew: the claims paid are gone, and the
    /// released funds on hand are reduced by the payment.
    pub open spec fn after_withdraw(self, user: Seq<char>) -> VaultView {
        VaultView {
            requests: unsettled(self.requests, user, self.history),
            state: State {
                actual_unbonded_amount: (self.state.actual_unbonded_amount - self.withdraw_drawn(
                    self.withdraw_paid(user),
                )) as u128,
                ..self.state
            },
            ..self
        }
    }

    /// What a claim of `amount` tokens on batch `batch_id` pays, or why it
    /// pays nothing yet.
    pub open spec fn request_payout(self, batch_id: u64, amount: u128) -> Result<u128, VaultError> {
        if batch_id >= self.history.len() || !self.history[batch_id as int].released {
            Err(VaultError::BatchNotReleased)
        } else if gross_payout(amount, self.history[batch_id as int]) > u128::MAX {
            Err(VaultError::InvalidAmount)
        } else {
            Ok(net_payout(amount, self.history[batch_id as int], self.params) as u128)
        }
    }
}

impl Vault {
    /// What a claim of `amount` tokens on batch `batch_id` pays: the tokens
    /// at the batch's withdraw rate, rounded down, less the recovery fee
    /// where the batch was closed below the threshold rate.
    pub fn settle_request(&self, batch_id: u64, amount: u128) -> (r: Result<u128, VaultError>)
        requires
            self.wf(),
        ensures
            r == self@.request_payout(batch_id, amount),
            r is Ok ==> r->Ok_0 as int == net_payout(
                amount,
                self@.history[batch_id as int],
                self@.params,
            ),
    {
        if batch_id >= self.history.len() as u64 {
            return Err(VaultError::BatchNotReleased);
        }
        let h: UnbondHistory = self.history[batch_id as usize];
        if !h.released {
            return Err(VaultError::BatchNotReleased);
        }
        let gross: u128 = match h.withdraw_rate.checked_mul_floor(amount) {
            Some(g) => g,
            None => { return Err(VaultError::InvalidAmount); },
        };
        if h.applied_exchange_rate.atomics < self.params.er_threshold.atomics {
            proof {
                lemma_scaled_down(
                    gross as int,
                    self.params.peg_recovery_fee.atomics as int,
                    DECIMAL_FRACTIONAL as int,
                );
            }
            let fee: u128 = multiply_ratio(gross, self.params.peg_recovery_fee.atomics, DECIMAL_FRACTIONAL);
            Ok(gross - fee)
        } else {
            Ok(gross)
        }
    }

    /// Pays `user` for every claim held on a released batch and removes
    /// those claims; claims on other batches stay for a later call.
    ///
    /// Refused with `NothingToWithdraw` where the user has no claim on a
    /// released batch, and with `InvalidAmount` where the payment exceeds
    /// 128 bits. A refused withdrawal changes nothing.
    pub fn withdraw_unbonded(&mut self, user: &String) -> (r: Result<u128, VaultError>)
        requires
            old(self).wf(),
        ensures
            final(self).wf(),
            match old(self)@.withdraw_error(user@) {
                Some(e) => r == Err::<u128, VaultError>(e) && final(self)@ == old(self)@,
                None => r is Ok && r->Ok_0 == old(self)@.withdraw_paid(user@) && final(self)@ == old(
                    self,
                )@.after_withdraw(user@),
            },
            final(self)@ == old(self)@.step(Step::Withdraw { user: *user }),
    {
        let mut kept: Vec<UnbondEntry> = Vec::new();
        let mut total: u128 = 0;
        let mut found: bool = false;
        let mut i: usize = 0;
        while i < self.requests.len()
            invariant
                self.wf(),
                *self == *old(self),
                i <= self.requests@.len(),
                kept@ == unsettled(self.requests@.take(i as int), user@, self.history@),
                settlement(self.requests@.take(i as int), user@, self.history@, self.params) == Some(
                    total as int,
                ),
                found == has_settled(self.requests@.take(i as int), user@, self.history@),
            decreases self.requests@.len() - i,
        {
            let ghost before = self.requests@.take(i as int);
            let ghost upto = self.requests@.take(i + 1);
            proof {
                assert(upto.drop_last() =~= before);
                assert(upto.last() == self.requests@[i as int]);
                assert forall|j: int| 0 <= j < before.len() implies before[j] == upto[j] by {}
            }
            let batch_id: u64 = self.requests[i].batch_id;
            let amount: u128 = self.requests[i].amount;
            let mine: bool = self.requests[i].user == *user;
            let paid: Result<u128, VaultError> = if mine {
                self.settle_request(batch_id, amount)
            } else {
                Err(VaultError::BatchNotReleased)
            };
            match paid {
                Ok(net) => {
                    proof {
                        assert(settled(upto[i as int], user@, self.history@));
                    }
                    total = match total.checked_add(net) {
                        Some(t) => t,
                        None => {
                            proof {
                                lemma_settlement_none(
                                    self.requests@,
                                    user@,
                                    self.history@,
                                    self.params,
                                    i + 1,
                                );
                                assert(settled(self.requests@[i as int], user@, self.history@));
                            }
                            return Err(VaultError::InvalidAmount);
                        },
                    };
                    found = true;
                },
                Err(VaultError::InvalidAmount) => {
                    proof {
                        lemma_settlement_none(
                            self.requests@,
                            user@,
                            self.history@,
                            self.params,
                            i + 1,
                        );
                        assert(settled(self.requests@[i as int], user@, self.history@));
                    }
                    return Err(VaultError::InvalidAmount);
                },
                Err(_) => {
                    proof {
                        assert(!settled(upto[i as int], user@, self.history@));
                        if has_settled(upto, user@, self.history@) {
                            let j = choose|j: int|
                                0 <= j < upto.len() && settled(#[trigger] upto[j], user@, self.history@);
                            assert(settled(before[j], user@, self.history@));
                        }
                    }
                    kept.push(
                        UnbondEntry { user: self.requests[i].user.clone(), batch_id, amount },
                    );
                },
            }
            i += 1;
        }
        proof {
            assert(self.requests@.take(i as int) =~= self.requests@);
        }
        if !found {
            return Err(VaultError::NothingToWithdraw);
        }
        let drawn: u128 = if total < self.state.actual_unbonded_amount {
            total
        } else {
            self.state.actual_unbonded_amount
        };
        self.requests = kept;
        self.state.actual_unbonded_amount = self.state.actual_unbonded_amount - drawn;
        Ok(total)
    }
}

} // verus!
