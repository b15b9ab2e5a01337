//! What holds of the vault over whole runs of operations.

use vstd::prelude::*;
use crate::batches::{lemma_amount_from_agree, lemma_amount_from_push, lemma_scaled_down};
use crate::decimal::{scaled, DECIMAL_FRACTIONAL};
use crate::msg::VaultError;
use crate::registry::{
    drained, lemma_prefix_step, prefix_stake, sum_delegated, taken_from_first, taken_of, Validator,
};
use crate::settlement::lemma_unsettled_has_none;
use crate::state::exchange_rate_for;
use crate::vault::{amount_from, VaultView};

verus! {

/// One operation of the bonding cycle, with its arguments.
pub enum Step {
    Bond { amount: u128, validator: Option<String>, now: u64, total_issued: u128 },
    Unbond { user: String, amount: u128, held: u128, now: u64, total_issued: u128 },
    Advance { now: u64, balance: Option<u128>, total_issued: u128 },
    Withdraw { user: String },
}

impl VaultView {
    /// The vault after one operation: what the operation makes of it where
    /// it is accepted, and the vault itself where it is refused.
    pub open spec fn step(self, s: Step) -> VaultView {
        match s {
            Step::Bond { amount, validator, now, total_issued } => if self.bond_error(
                amount,
                total_issued,
            ) is None {
                self.after_bond(self.chosen_target(validator), amount, now, total_issued)
            } else {
                self
            },
            Step::Unbond { user, amount, held, now, total_issued } => if self.unbond_error(
                user@,
                amount,
                held,
                total_issued,
            ) is None {
                self.after_unbond(user, amount, now, total_issued)
            } else {
                self
            },
            Step::Advance { now, balance, total_issued } => self.after_advance(
                now,
                balance,
                total_issued,
            ),
            Step::Withdraw { user } => if self.withdraw_error(user@) is None {
                self.after_withdraw(user@)
            } else {
                self
            },
        }
    }

    /// What the batches that can be released now, in order, are paid in all.
    pub open spec fn released_total(self, now: u64, balance: Option<u128>, total_issued: u128) -> int
        decreases self.history.len() - self.frontier(),
    {
        if self.release_due(now, balance, total_issued) {
            self.next_payout() + self.after_release(now, total_issued).released_total(
                now,
                balance,
                total_issued,
            )
        } else {
            0
        }
    }

    /// The amount one operation bonds: the amount of an accepted bond.
    pub open spec fn bonded_in(self, s: Step) -> int {
        match s {
            Step::Bond { amount, total_issued, .. } => if self.bond_error(amount, total_issued) is None {
                amount as int
            } else {
                0
            },
            _ => 0,
        }
    }

    /// The amount one operation releases: what the batches released by
    /// bringing the vault up to date are paid.
    pub open spec fn released_in(self, s: Step) -> int {
        match s {
            Step::Advance { now, balance, total_issued } => self.close_if_due(now).released_total(
                now,
                balance,
                total_issued,
            ),
            _ => 0,
        }
    }

    /// The vault after a run of operations.
    pub open spec fn run(self, steps: Seq<Step>) -> VaultView
        decreases steps.len(),
    {
        if steps.len() == 0 {
            self
        } else {
            self.run(steps.drop_last()).step(steps.last())
        }
    }

    /// Everything bonded over a run, less everything released over it.
    pub open spec fn net_bonded(self, steps: Seq<Step>) -> int
        decreases steps.len(),
    {
        if steps.len() == 0 {
            0
        } else {
            let before = self.run(steps.drop_last());
            self.net_bonded(steps.drop_last()) + before.bonded_in(steps.last()) - before.released_in(
                steps.last(),
            )
        }
    }

    /// The payout of the next batch is never negative.
    pub proof fn lemma_payout_nonnegative(self)
        ensures
            0 <= self.next_payout(),
    {
        let h = self.history[self.frontier()];
        if self.state.exchange_rate.atomics < h.applied_exchange_rate.atomics {
            lemma_scaled_down(
                h.amount as int,
                self.state.exchange_rate.atomics as int,
                h.applied_exchange_rate.atomics as int,
            );
        }
    }

    /// Releasing batches takes exactly what they are paid off the bonded
    /// total.
    pub proof fn lemma_release_conserves(self, now: u64, balance: Option<u128>, total_issued: u128)
        ensures
            self.release_all(now, balance, total_issued).state.total_bond_amount
                == self.state.total_bond_amount - self.released_total(now, balance, total_issued),
        decreases self.history.len() - self.frontier(),
    {
        if self.release_due(now, balance, total_issued) {
            self.lemma_payout_nonnegative();
            self.after_release(now, total_issued).lemma_release_conserves(now, balance, total_issued);
        }
    }

    /// Conservation. Over any run of bonds, unbonding requests, batch
    /// advances and withdrawals, the bonded total changes by exactly what
    /// was bonded less what was released: no value appears or disappears.
    pub proof fn lemma_conservation(self, steps: Seq<Step>)
        ensures
            self.run(steps).state.total_bond_amount == self.state.total_bond_amount
                + self.net_bonded(steps),
        decreases steps.len(),
    {
        if steps.len() > 0 {
            self.lemma_conservation(steps.drop_last());
            let before = self.run(steps.drop_last());
            match steps.last() {
                Step::Advance { now, balance, total_issued } => {
                    before.close_if_due(now).lemma_release_conserves(now, balance, total_issued);
                },
                _ => {},
            }
        }
    }

    /// First in, first out. In a well-formed vault a batch is released only
    /// if every older batch is.
    pub proof fn lemma_fifo(self, older: int, newer: int)
        requires
            self.wf(),
            0 <= older < newer < self.history.len(),
            self.history[newer].released,
        ensures
            self.history[older].released,
    {
    }

    /// Closing the open batch keeps the vault well formed.
    pub proof fn lemma_close_keeps_wf(self, now: u64)
        requires
            self.wf(),
            self.history.len() < u64::MAX,
        ensures
            self.close_if_due(now).wf(),
    {
        if self.close_due(now) {
            let after = self.after_close(now);
            let x = self.current_batch.requested_with_fee;
            lemma_amount_from_push(self.history, self.frontier(), after.history.last());
            lemma_drained_sum(x, self.validators);
            assert(after.frontier() == self.frontier());
        }
    }

    /// Releasing the oldest unreleased batch keeps the vault well formed.
    pub proof fn lemma_release_keeps_wf(self, now: u64, balance: Option<u128>, total_issued: u128)
        requires
            self.wf(),
            self.release_due(now, balance, total_issued),
        ensures
            self.after_release(now, total_issued).wf(),
            self.after_release(now, total_issued).frontier() == self.frontier() + 1,
    {
        let after = self.after_release(now, total_issued);
        let f = self.frontier();
        self.lemma_payout_nonnegative();
        lemma_amount_from_agree(self.history, after.history, f + 1);
        assert(amount_from(self.history, f) == self.history[f].amount + amount_from(
            self.history,
            f + 1,
        ));
        assert(after.frontier() == f + 1);
    }

    /// What one operation leaves alone. No operation of the bonding cycle
    /// takes a batch out of the history or changes what a closed batch
    /// requested, and the ids of the open batch and of the batch released
    /// last never fall.
    pub proof fn lemma_step_keeps_records(self, s: Step)
        requires
            self.wf(),
            self.history.len() < u64::MAX,
        ensures
            self.step(s).history.len() >= self.history.len(),
            forall|i: int|
                0 <= i < self.history.len() ==> (#[trigger] self.step(s).history[i]).amount
                    == self.history[i].amount,
            self.step(s).current_batch.id >= self.current_batch.id,
            self.step(s).state.last_processed_batch >= self.state.last_processed_batch,
    {
        match s {
            Step::Advance { now, balance, total_issued } => {
                self.lemma_close_keeps_wf(now);
                self.close_if_due(now).lemma_release_all_keeps_records(now, balance, total_issued);
            },
            _ => {},
        }
    }

    /// Releasing batches changes neither the number of batches nor what
    /// they requested, and never lowers the id of the batch released last.
    pub proof fn lemma_release_all_keeps_records(
        self,
        now: u64,
        balance: Option<u128>,
        total_issued: u128,
    )
        requires
            self.wf(),
        ensures
            self.release_all(now, balance, total_issued).history.len() == self.history.len(),
            forall|i: int|
                0 <= i < self.history.len() ==> (#[trigger] self.release_all(
                    now,
                    balance,
                    total_issued,
                ).history[i]).amount == self.history[i].amount,
            self.release_all(now, balance, total_issued).current_batch == self.current_batch,
            self.release_all(now, balance, total_issued).state.last_processed_batch
                >= self.state.last_processed_batch,
        decreases self.history.len() - self.frontier(),
    {
        if self.release_due(now, balance, total_issued) {
            self.lemma_release_keeps_wf(now, balance, total_issued);
            self.after_release(now, total_issued).lemma_release_all_keeps_records(
                now,
                balance,
                total_issued,
            );
        }
    }

    /// Releasing every batch that can be released keeps the vault well
    /// formed, so batches are only ever released oldest first.
    pub proof fn lemma_release_all_keeps_wf(self, now: u64, balance: Option<u128>, total_issued: u128)
        requires
            self.wf(),
        ensures
            self.release_all(now, balance, total_issued).wf(),
            !self.release_all(now, balance, total_issued).release_due(now, balance, total_issued),
        decreases self.history.len() - self.frontier(),
    {
        if self.release_due(now, balance, total_issued) {
            self.lemma_release_keeps_wf(now, balance, total_issued);
            self.after_release(now, total_issued).lemma_release_all_keeps_wf(
                now,
                balance,
                total_issued,
            );
        }
    }

    /// First in, first out, over an advance. However far bringing the vault
    /// up to date gets, it never leaves a batch unreleased behind a
    /// released one.
    pub proof fn lemma_advance_in_order(
        self,
        now: u64,
        balance: Option<u128>,
        total_issued: u128,
        older: int,
        newer: int,
    )
        requires
            self.wf(),
            self.history.len() < u64::MAX,
            0 <= older < newer < self.after_advance(now, balance, total_issued).history.len(),
            self.after_advance(now, balance, total_issued).history[newer].released,
        ensures
            self.after_advance(now, balance, total_issued).history[older].released,
    {
        self.lemma_close_keeps_wf(now);
        self.close_if_due(now).lemma_release_all_keeps_wf(now, balance, total_issued);
    }

    /// Releasing every batch that can be released leaves none that can be,
    /// and touches neither the open batch nor the parameters.
    pub proof fn lemma_release_all_settles(self, now: u64, balance: Option<u128>, total_issued: u128)
        ensures
            !self.release_all(now, balance, total_issued).release_due(now, balance, total_issued),
            self.release_all(now, balance, total_issued).current_batch == self.current_batch,
            self.release_all(now, balance, total_issued).params == self.params,
        decreases self.history.len() - self.frontier(),
    {
        if self.release_due(now, balance, total_issued) {
            self.after_release(now, total_issued).lemma_release_all_settles(
                now,
                balance,
                total_issued,
            );
        }
    }

    /// Bringing the vault up to date is idempotent: doing it again with the
    /// same time, balance and supply changes nothing.
    pub proof fn lemma_advance_idempotent(self, now: u64, balance: Option<u128>, total_issued: u128)
        ensures
            self.after_advance(now, balance, total_issued).after_advance(
                now,
                balance,
                total_issued,
            ) == self.after_advance(now, balance, total_issued),
    {
        self.close_if_due(now).lemma_release_all_settles(now, balance, total_issued);
    }

    /// Idempotent withdrawal. Right after a withdrawal was paid, the same
    /// user has nothing to withdraw, and asking again changes nothing.
    pub proof fn lemma_withdraw_twice(self, user: String)
        requires
            self.withdraw_error(user@) is None,
        ensures
            self.after_withdraw(user@).withdraw_error(user@) == Some(
                VaultError::NothingToWithdraw,
            ),
            self.step(Step::Withdraw { user }).step(Step::Withdraw { user }) == self.step(
                Step::Withdraw { user },
            ),
    {
        lemma_unsettled_has_none(self.requests, user@, self.history);
    }
}

/// The default rate. Where nothing is bonded or no claims are outstanding,
/// the exchange rate is exactly one.
pub proof fn lemma_rate_default(bonded: int, supply: int)
    requires
        bonded == 0 || supply == 0,
    ensures
        exchange_rate_for(bonded, supply) == DECIMAL_FRACTIONAL,
{
}

/// The rate never promises more than is bonded. Where something is bonded
/// and claims are outstanding, the claims valued at the rate, rounded down,
/// stay within the bonded total.
pub proof fn lemma_rate_within_bonded(bonded: int, supply: int)
    requires
        bonded > 0,
        supply > 0,
    ensures
        0 <= exchange_rate_for(bonded, supply),
        scaled(supply, exchange_rate_for(bonded, supply)) <= bonded,
{
    let f = DECIMAL_FRACTIONAL as int;
    let rate = exchange_rate_for(bonded, supply);
    assert(rate == (bonded * f) / supply);
    assert(0 <= rate && rate * supply <= bonded * f) by (nonlinear_arith)
        requires
            rate == (bonded * f) / supply,
            bonded > 0,
            supply > 0,
            f > 0,
    ;
    assert((supply * rate) / f <= bonded) by (nonlinear_arith)
        requires
            rate * supply <= bonded * f,
            f > 0,
    ;
}

/// Taking stake from the validators front to back takes the amount asked
/// for, or all there is.
pub proof fn lemma_drained_sum(x: u128, vs: Seq<Validator>)
    ensures
        sum_delegated(drained(x, vs)) == if sum_delegated(vs) < x {
            0
        } else {
            sum_delegated(vs) - x
        },
        forall|i: int|
            0 <= i < vs.len() ==> (#[trigger] drained(x, vs)[i]).address == vs[i].address,
{
    lemma_drained_prefix(x, vs, vs.len() as int);
    assert(vs.take(vs.len() as int) =~= vs);
    assert(drained(x, vs).take(vs.len() as int) =~= drained(x, vs));
}

/// Taking stake front to back takes from the first `j` validators what it takes from them.
proof fn lemma_drained_prefix(x: u128, vs: Seq<Validator>, j: int)
    requires
        0 <= j <= vs.len(),
    ensures
        prefix_stake(drained(x, vs), j) == prefix_stake(vs, j) - taken_from_first(x, vs, j),
    decreases j,
{
    if j == 0 {
        assert(vs.take(0) =~= Seq::<Validator>::empty());
        assert(drained(x, vs).take(0) =~= Seq::<Validator>::empty());
    } else {
        lemma_drained_prefix(x, vs, j - 1);
        lemma_prefix_step(vs, j - 1);
        lemma_prefix_step(drained(x, vs), j - 1);
        assert(0 <= taken_of(x, vs, j - 1) <= vs[j - 1].delegated);
    }
}

} // verus!
