//! Unbonding requests: claim tokens are burnt and a claim on the open batch
//! is recorded for their sender.

use vstd::prelude::*;
use crate::decimal::{scaled, Decimal};
use crate::laws::Step;
use crate::msg::VaultError;
use crate::state::{exchange_rate_for, exchange_rate_sound, rate_is_sound, State};
use crate::vault::{Batch, UnbondEntry, Vault, VaultView};

verus! {

/// Whether `e` is the claim of `user` on batch `batch`.
pub open spec fn entry_matches(e: UnbondEntry, user: Seq<char>, batch: u64) -> bool {
    e.user@ == user && e.batch_id == batch
}

/// The position, at or after `from`, of the first claim of `user` on
/// `batch`; the length of `reqs` where there is none.
pub open spec fn slot_from(reqs: Seq<UnbondEntry>, user: Seq<char>, batch: u64, from: int) -> int
    decreases reqs.len() - from,
{
    if from < 0 || from >= reqs.len() {
        reqs.len() as int
    } else if entry_matches(reqs[from], user, batch) {
        from
    } else {
        slot_from(reqs, user, batch, from + 1)
    }
}

/// The position of the claim of `user` on `batch`, or the length of `reqs`.
pub open spec fn request_slot(reqs: Seq<UnbondEntry>, user: Seq<char>, batch: u64) -> int {
    slot_from(reqs, user, batch, 0)
}

impl VaultView {
    /// Underlying value of `amount` claim tokens at the current rate.
    pub open spec fn unbond_requested(self, amount: u128) -> int {
        scaled(amount as int, self.state.exchange_rate.atomics as int)
    }

    /// Claims outstanding once `amount` tokens are burnt and requested.
    pub open spec fn unbond_supply(self, amount: u128, total_issued: u128) -> int {
        total_issued - amount + self.pending() + self.unbond_requested(amount)
    }

    /// Whether every number an unbonding of `amount` produces can be
    /// represented.
    pub open spec fn unbond_fits(self, user: Seq<char>, amount: u128, total_issued: u128) -> bool {
        let k = request_slot(self.requests, user, self.current_batch.id);
        &&& amount <= total_issued
        &&& self.unbond_requested(amount) <= u128::MAX
        &&& self.pending() + self.unbond_requested(amount) <= u128::MAX
        &&& (k < self.requests.len() ==> self.requests[k].amount + amount <= u128::MAX)
        &&& self.unbond_supply(amount, total_issued) <= u128::MAX
        &&& exchange_rate_sound(
            self.state.total_bond_amount as int,
            self.unbond_supply(amount, total_issued),
        )
    }

    /// Why an unbonding of `amount` by a sender holding `held` is refused, if
    /// it is.
    pub open spec fn unbond_error(self, user: Seq<char>, amount: u128, held: u128, total_issued: u128) -> Option<
        VaultError,
    > {
        if amount == 0 {
            Some(VaultError::InvalidAmount)
        } else if amount > held {
            Some(VaultError::InsufficientBalance)
        } else if !self.unbond_fits(user, amount, total_issued) {
            Some(VaultError::InvalidAmount)
        } else {
            None
        }
    }

    /// The vault after `user` requested the unbonding of `amount` tokens.
    pub open spec fn after_unbond(self, user: String, amount: u128, now: u64, total_issued: u128) -> VaultView {
        let k = request_slot(self.requests, user@, self.current_batch.id);
        VaultView {
            state: State {
                exchange_rate: Decimal {
                    atomics: exchange_rate_for(
                        self.state.total_bond_amount as int,
                        self.unbond_supply(amount, total_issued),
                    ) as u128,
                },
                last_index_modification: now,
                ..self.state
            },
            current_batch: Batch {
                requested_with_fee: (self.current_batch.requested_with_fee + self.unbond_requested(
                    amount,
                )) as u128,
                created: if self.current_batch.created is None {
                    Some(now)
                } else {
                    self.current_batch.created
                },
                ..self.current_batch
            },
            requests: if k < self.requests.len() {
                self.requests.update(
                    k,
                    UnbondEntry {
                        user: self.requests[k].user,
                        batch_id: self.current_batch.id,
                        amount: (self.requests[k].amount + amount) as u128,
                    },
                )
            } else {
                self.requests.push(
                    UnbondEntry { user, batch_id: self.current_batch.id, amount },
                )
            },
            ..self
        }
    }
}

impl Vault {
    /// The position of the claim of `user` on batch `batch`, or the number of
    /// claims where there is none.
    pub fn find_request(&self, user: &String, batch: u64) -> (k: usize)
        ensures
            k as int == request_slot(self.requests@, user@, batch),
            k <= self.requests@.len(),
            k < self.requests@.len() ==> entry_matches(self.requests@[k as int], user@, batch),
    {
        let mut i: usize = 0;
        while i < self.requests.len()
            invariant
                i <= self.requests@.len(),
                request_slot(self.requests@, user@, batch) == slot_from(
                    self.requests@,
                    user@,
                    batch,
                    i as int,
                ),
            decreases self.requests@.len() - i,
        {
            if self.requests[i].batch_id == batch && self.requests[i].user == *user {
                return i;
            }
            i += 1;
        }
        i
    }

    /// Records that `user`, holding `held` claim tokens, gives up `amount` of
    /// them at time `now`, while `total_issued` are outstanding.
    ///
    /// The tokens' underlying value at the current rate, rounded down, is
    /// added to the open batch and returned. The claim is added to the one
    /// the user already has on the open batch, or recorded anew. The rate is
    /// recomputed for the reduced supply. A refused request changes nothing.
    pub fn unbond(&mut self, user: &String, amount: u128, held: u128, now: u64, total_issued: u128) -> (r:
        Result<u128, VaultError>)
        requires
            old(self).wf(),
        ensures
            final(self).wf(),
            match old(self)@.unbond_error(user@, amount, held, total_issued) {
                Some(e) => r == Err::<u128, VaultError>(e) && final(self)@ == old(self)@,
                None => r is Ok && r->Ok_0 == old(self)@.unbond_requested(amount) && final(self)@
                    == old(self)@.after_unbond(*user, amount, now, total_issued),
            },
            final(self)@ == old(self)@.step(
                Step::Unbond { user: *user, amount, held, now, total_issued },
            ),
    {
        if amount == 0 {
            return Err(VaultError::InvalidAmount);
        }
        if amount > held {
            return Err(VaultError::InsufficientBalance);
        }
        if amount > total_issued {
            return Err(VaultError::InvalidAmount);
        }
        let requested: u128 = match self.state.exchange_rate.checked_mul_floor(amount) {
            Some(m) => m,
            None => { return Err(VaultError::InvalidAmount); },
        };
        let pending: u128 = self.current_batch.requested_with_fee + self.pending_closed;
        let pending_after: u128 = match pending.checked_add(requested) {
            Some(s) => s,
            None => { return Err(VaultError::InvalidAmount); },
        };
        let k: usize = self.find_request(user, self.current_batch.id);
        if k < self.requests.len() && self.requests[k].amount.checked_add(amount).is_none() {
            return Err(VaultError::InvalidAmount);
        }
        let issued: u128 = total_issued - amount;
        let supply: u128 = match issued.checked_add(pending_after) {
            Some(s) => s,
            None => { return Err(VaultError::InvalidAmount); },
        };
        if !rate_is_sound(self.state.total_bond_amount, supply) {
            return Err(VaultError::InvalidAmount);
        }
        if k < self.requests.len() {
            let merged = UnbondEntry {
                user: self.requests[k].user.clone(),
                batch_id: self.current_batch.id,
                amount: self.requests[k].amount + amount,
            };
            self.requests.set(k, merged);
        } else {
            self.requests.push(
                UnbondEntry { user: user.clone(), batch_id: self.current_batch.id, amount },
            );
        }
        self.current_batch.requested_with_fee = self.current_batch.requested_with_fee + requested;
        if self.current_batch.created.is_none() {
            self.current_batch.created = Some(now);
        }
        self.state.update_exchange_rate(issued, pending_after);
        self.state.last_index_modification = now;
        Ok(requested)
    }
}

} // verus!
