//! The batch manager: closing the open batch when its epoch is over, and
//! releasing closed batches, oldest first, once they have matured and the
//! vault can pay them.

use vstd::prelude::*;
use crate::decimal::{multiply_ratio, ratio_floor, Decimal};
use crate::laws::Step;
use crate::msg::UnbondHistory;
use crate::registry::drained;
use crate::state::{exchange_rate_for, exchange_rate_sound, rate_is_sound, State};
use crate::vault::{amount_from, Batch, Vault, VaultView};

verus! {

/// Whether at least `period` has passed at `now` since `since`.
pub open spec fn elapsed(since: u64, now: u64, period: u64) -> bool {
    since + period <= now
}

/// Decides whether at least `period` has passed at `now` since `since`.
pub fn has_elapsed(since: u64, now: u64, period: u64) -> (b: bool)
    ensures
        b == elapsed(since, now, period),
{
    now >= since && now - since >= period
}

/// The rate a batch is paid at: the rate it was closed at, or the current
/// rate where that has fallen below it.
pub open spec fn release_rate(applied: Decimal, current: Decimal) -> Decimal {
    if current.atomics < applied.atomics {
        current
    } else {
        applied
    }
}

/// What a batch that requested `amount` at rate `applied` is paid in all
/// when it is released at rate `rate`: the amount itself at an unchanged
/// rate, scaled down in proportion otherwise.
pub open spec fn release_payout(amount: u128, applied: Decimal, rate: Decimal) -> int {
    if rate.atomics < applied.atomics {
        ratio_floor(amount as int, rate.atomics as int, applied.atomics as int)
    } else {
        amount as int
    }
}

/// Scaling by a ratio of at most one never grows an amount.
pub(crate) proof fn lemma_scaled_down(amount: int, rate: int, applied: int)
    requires
        0 <= amount,
        0 <= rate <= applied,
        0 < applied,
    ensures
        0 <= ratio_floor(amount, rate, applied) <= amount,
{
    assert(amount * rate <= amount * applied) by (nonlinear_arith)
        requires
            0 <= amount,
            0 <= rate <= applied,
    ;
    assert(0 <= amount * rate) by (nonlinear_arith)
        requires
            0 <= amount,
            0 <= rate,
    ;
    assert((amount * rate) / applied <= amount) by (nonlinear_arith)
        requires
            amount * rate <= amount * applied,
            applied > 0,
    ;
    assert(0 <= (amount * rate) / applied) by (nonlinear_arith)
        requires
            0 <= amount * rate,
            applied > 0,
    ;
}

/// Appending a batch adds what it requested to every tail sum.
pub(crate) proof fn lemma_amount_from_push(h: Seq<UnbondHistory>, from: int, x: UnbondHistory)
    requires
        0 <= from <= h.len(),
    ensures
        amount_from(h.push(x), from) == amount_from(h, from) + x.amount,
    decreases h.len() - from,
{
    if from < h.len() {
        lemma_amount_from_push(h, from + 1, x);
        assert(h.push(x)[from] == h[from]);
    } else {
        assert(amount_from(h.push(x), from + 1) == 0);
    }
}

/// Histories that request the same from a position on have the same tail sum.
pub(crate) proof fn lemma_amount_from_agree(h1: Seq<UnbondHistory>, h2: Seq<UnbondHistory>, from: int)
    requires
        0 <= from,
        h1.len() == h2.len(),
        forall|i: int| from <= i < h1.len() ==> h1[i].amount == h2[i].amount,
    ensures
        amount_from(h1, from) == amount_from(h2, from),
    decreases h1.len() - from,
{
    if from < h1.len() {
        lemma_amount_from_agree(h1, h2, from + 1);
    }
}

impl VaultView {
    /// Whether the open batch has collected a request and its epoch is over.
    pub open spec fn close_due(self, now: u64) -> bool {
        self.current_batch.created is Some && elapsed(
            self.current_batch.created->0,
            now,
            self.params.epoch_period,
        )
    }

    /// The vault after the open batch was closed at `now`: the batch enters
    /// the history at the current rate, unreleased, a fresh batch with the
    /// next id is open, and the stake that backs the closed batch is taken
    /// from the validators, front to back.
    pub open spec fn after_close(self, now: u64) -> VaultView {
        VaultView {
            history: self.history.push(
                UnbondHistory {
                    batch_id: self.current_batch.id,
                    time: now,
                    amount: self.current_batch.requested_with_fee,
                    applied_exchange_rate: self.state.exchange_rate,
                    withdraw_rate: self.state.exchange_rate,
                    released: false,
                },
            ),
            current_batch: Batch {
                id: (self.current_batch.id + 1) as u64,
                requested_with_fee: 0,
                created: None,
            },
            pending_closed: (self.pending_closed + self.current_batch.requested_with_fee) as u128,
            validators: drained(self.current_batch.requested_with_fee, self.validators),
            total_delegated: if self.total_delegated < self.current_batch.requested_with_fee {
                0
            } else {
                (self.total_delegated - self.current_batch.requested_with_fee) as u128
            },
            state: State { last_unbonded_time: now, ..self.state },
            ..self
        }
    }

    /// The vault with the open batch closed where that is due.
    pub open spec fn close_if_due(self, now: u64) -> VaultView {
        if self.close_due(now) {
            self.after_close(now)
        } else {
            self
        }
    }

    /// What the oldest unreleased batch would be paid in all.
    pub open spec fn next_payout(self) -> int {
        let h = self.history[self.frontier()];
        release_payout(
            h.amount,
            h.applied_exchange_rate,
            release_rate(h.applied_exchange_rate, self.state.exchange_rate),
        )
    }

    /// Claims outstanding once the oldest unreleased batch is released.
    pub open spec fn release_supply(self, total_issued: u128) -> int {
        total_issued + self.pending() - self.history[self.frontier()].amount
    }

    /// Whether the oldest unreleased batch can be released at `now`: it has
    /// matured, the balance is known and covers it together with what was
    /// released before, the bonded total covers it, and the rate that
    /// follows can be represented.
    pub open spec fn release_due(self, now: u64, balance: Option<u128>, total_issued: u128) -> bool {
        &&& 0 <= self.frontier() < self.history.len() <= u64::MAX
        &&& elapsed(self.history[self.frontier()].time, now, self.params.unbonding_period)
        &&& balance is Some
        &&& self.state.actual_unbonded_amount + self.next_payout() <= balance->0
        &&& self.next_payout() <= self.state.total_bond_amount
        &&& self.release_supply(total_issued) <= u128::MAX
        &&& exchange_rate_sound(
            self.state.total_bond_amount - self.next_payout(),
            self.release_supply(total_issued),
        )
    }

    /// The vault after the oldest unreleased batch was released at `now`.
    pub open spec fn after_release(self, now: u64, total_issued: u128) -> VaultView {
        let f = self.frontier();
        let h = self.history[f];
        let rate = release_rate(h.applied_exchange_rate, self.state.exchange_rate);
        VaultView {
            history: self.history.update(
                f,
                UnbondHistory { withdraw_rate: rate, released: true, ..h },
            ),
            pending_closed: (self.pending_closed - h.amount) as u128,
            unbonded_since_check: (self.unbonded_since_check + self.next_payout()) as u128,
            state: State {
                exchange_rate: Decimal {
                    atomics: exchange_rate_for(
                        self.state.total_bond_amount - self.next_payout(),
                        self.release_supply(total_issued),
                    ) as u128,
                },
                total_bond_amount: (self.state.total_bond_amount - self.next_payout()) as u128,
                actual_unbonded_amount: (self.state.actual_unbonded_amount + self.next_payout()) as u128,
                last_processed_batch: f as u64,
                last_index_modification: now,
                ..self.state
            },
            ..self
        }
    }

    /// The vault after every batch that can be released, in order, was.
    pub open spec fn release_all(self, now: u64, balance: Option<u128>, total_issued: u128) -> VaultView
        decreases self.history.len() - self.frontier(),
    {
        if self.release_due(now, balance, total_issued) {
            self.after_release(now, total_issued).release_all(now, balance, total_issued)
        } else {
            self
        }
    }

    /// The vault brought up to date at `now`: the open batch closed if due,
    /// then every releasable batch released.
    pub open spec fn after_advance(self, now: u64, balance: Option<u128>, total_issued: u128) -> VaultView {
        self.close_if_due(now).release_all(now, balance, total_issued)
    }
}

/// What bringing the vault up to date did.
#[derive(Clone, Copy, Debug, PartialEq, Eq, Structural)]
pub struct AdvanceReport {
    /// Underlying value of the batch that was closed, if one was.
    pub closed: Option<u128>,
    /// How many batches were released.
    pub released: u64,
}

impl Vault {
    /// The position of the oldest batch that is not released.
    pub fn frontier(&self) -> (f: usize)
        requires
            self.wf(),
        ensures
            f as int == self@.frontier(),
    {
        if self.history.len() > 0 && self.history[0].released {
            (self.state.last_processed_batch + 1) as usize
        } else {
            0
        }
    }

    /// Closes the open batch at `now` where that is due, and says what it had
    /// collected.
    pub fn close_batch(&mut self, now: u64) -> (r: Option<u128>)
        requires
            old(self).wf(),
        ensures
            final(self).wf(),
            final(self)@ == old(self)@.close_if_due(now),
            r is Some <==> old(self)@.close_due(now),
            r is Some ==> r->0 == old(self)@.current_batch.requested_with_fee,
    {
        let due: bool = match self.current_batch.created {
            Some(since) => has_elapsed(since, now, self.params.epoch_period),
            None => false,
        };
        if !due {
            return None;
        }
        let requested: u128 = self.current_batch.requested_with_fee;
        let entry = UnbondHistory {
            batch_id: self.current_batch.id,
            time: now,
            amount: requested,
            applied_exchange_rate: self.state.exchange_rate,
            withdraw_rate: self.state.exchange_rate,
            released: false,
        };
        proof {
            lemma_amount_from_push(self.history@, self@.frontier(), entry);
        }
        self.history.push(entry);
        self.current_batch = Batch {
            id: self.history.len() as u64,
            requested_with_fee: 0,
            created: None,
        };
        self.pending_closed = self.pending_closed + requested;
        let _ = self.registry.drain_stake(requested);
        self.state.last_unbonded_time = now;
        Some(requested)
    }

    /// Releases the oldest unreleased batch at `now` where that is possible,
    /// and says whether it did.
    pub fn release_next(&mut self, now: u64, balance: Option<u128>, total_issued: u128) -> (r: bool)
        requires
            old(self).wf(),
        ensures
            final(self).wf(),
            r == old(self)@.release_due(now, balance, total_issued),
            r ==> final(self)@ == old(self)@.after_release(now, total_issued),
            !r ==> final(self)@ == old(self)@,
    {
        let f: usize = self.frontier();
        if f >= self.history.len() {
            return false;
        }
        let h: UnbondHistory = self.history[f];
        if !has_elapsed(h.time, now, self.params.unbonding_period) {
            return false;
        }
        let available: u128 = match balance {
            Some(b) => b,
            None => { return false; },
        };
        let applied: Decimal = h.applied_exchange_rate;
        let current: Decimal = self.state.exchange_rate;
        let rate: Decimal = if current.atomics < applied.atomics {
            current
        } else {
            applied
        };
        let payout: u128 = if rate.atomics < applied.atomics {
            proof {
                lemma_scaled_down(h.amount as int, rate.atomics as int, applied.atomics as int);
            }
            multiply_ratio(h.amount, rate.atomics, applied.atomics)
        } else {
            h.amount
        };
        if payout > available || self.state.actual_unbonded_amount > available - payout {
            return false;
        }
        if payout > self.state.total_bond_amount {
            return false;
        }
        proof {
            assert(amount_from(self.history@, f as int) == h.amount + amount_from(
                self.history@,
                f + 1,
            ));
        }
        let pending: u128 = self.current_batch.requested_with_fee + self.pending_closed - h.amount;
        let supply: u128 = match total_issued.checked_add(pending) {
            Some(s) => s,
            None => { return false; },
        };
        let bonded: u128 = self.state.total_bond_amount - payout;
        if !rate_is_sound(bonded, supply) {
            return false;
        }
        let released = UnbondHistory {
            batch_id: h.batch_id,
            time: h.time,
            amount: h.amount,
            applied_exchange_rate: applied,
            withdraw_rate: rate,
            released: true,
        };
        proof {
            lemma_amount_from_agree(
                self.history@,
                self.history@.update(f as int, released),
                f + 1,
            );
        }
        self.history.set(f, released);
        self.pending_closed = self.pending_closed - h.amount;
        self.state.total_bond_amount = bonded;
        self.unbonded_since_check = self.unbonded_since_check + payout;
        self.state.actual_unbonded_amount = self.state.actual_unbonded_amount + payout;
        self.state.last_processed_batch = f as u64;
        self.state.update_exchange_rate(total_issued, pending);
        self.state.last_index_modification = now;
        true
    }

    /// Brings the vault up to date at `now`: closes the open batch if its
    /// epoch is over, then releases closed batches in order of their ids for
    /// as long as the next one has matured and `balance` covers it. A batch
    /// is never released before an older one.
    pub fn advance_batches(&mut self, now: u64, balance: Option<u128>, total_issued: u128) -> (r:
        AdvanceReport)
        requires
            old(self).wf(),
        ensures
            final(self).wf(),
            final(self)@ == old(self)@.after_advance(now, balance, total_issued),
            final(self)@ == old(self)@.step(Step::Advance { now, balance, total_issued }),
            r.closed is Some <==> old(self)@.close_due(now),
            r.closed is Some ==> r.closed->0 == old(self)@.current_batch.requested_with_fee,
            r.released == final(self)@.frontier() - old(self)@.frontier(),
    {
        let closed = self.close_batch(now);
        let ghost start = self@;
        let mut released: u64 = 0;
        loop
            invariant
                self.wf(),
                start.release_all(now, balance, total_issued) == self@.release_all(
                    now,
                    balance,
                    total_issued,
                ),
                released == self@.frontier() - start.frontier(),
                start.frontier() >= 0,
            ensures
                !self@.release_due(now, balance, total_issued),
            decreases self@.history.len() - self@.frontier(),
        {
            if !self.release_next(now, balance, total_issued) {
                break;
            }
            released = released + 1;
        }
        AdvanceReport { closed, released }
    }
}

} // verus!
