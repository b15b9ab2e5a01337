//! Deciding at run time whether a vault is well formed, for callers that
//! obtained one from anywhere but this library's own operations.

use vstd::prelude::*;
use crate::decimal::DECIMAL_FRACTIONAL;
use crate::msg::UnbondHistory;
use crate::registry::{
    lemma_prefix_le, lemma_prefix_step, lemma_prefix_step_zero, prefix_stake, Registry,
};
use crate::vault::{amount_from, Vault};

verus! {

/// A tail sum that starts earlier is no smaller.
proof fn lemma_amount_from_grows(h: Seq<UnbondHistory>, from: int, later: int)
    requires
        0 <= from <= later,
    ensures
        amount_from(h, later) <= amount_from(h, from),
    decreases later - from,
{
    if from < later {
        lemma_amount_from_grows(h, from + 1, later);
    }
}

impl Registry {
    /// Decides whether the whitelist is well formed.
    pub fn is_well_formed(&self) -> (b: bool)
        ensures
            b == self.wf(),
    {
        let mut i: usize = 0;
        while i < self.validators.len()
            invariant
                i <= self.validators@.len(),
                forall|a: int, b: int|
                    0 <= a < b < i ==> (#[trigger] self.validators@[a]).address@ != (
                    #[trigger] self.validators@[b]).address@,
            decreases self.validators@.len() - i,
        {
            let mut j: usize = 0;
            while j < i
                invariant
                    j <= i < self.validators@.len(),
                    forall|a: int|
                        0 <= a < j ==> (#[trigger] self.validators@[a]).address@
                            != self.validators@[i as int].address@,
                decreases i - j,
            {
                if self.validators[j].address == self.validators[i].address {
                    return false;
                }
                j += 1;
            }
            i += 1;
        }
        let mut sum: u128 = 0;
        let mut k: usize = 0;
        proof {
            lemma_prefix_step_zero(self.validators@);
        }
        while k < self.validators.len()
            invariant
                k <= self.validators@.len(),
                sum == prefix_stake(self.validators@, k as int),
            decreases self.validators@.len() - k,
        {
            proof {
                lemma_prefix_step(self.validators@, k as int);
                lemma_prefix_le(self.validators@, k + 1);
            }
            sum = match sum.checked_add(self.validators[k].delegated) {
                Some(s) => s,
                None => { return false; },
            };
            k += 1;
        }
        proof {
            assert(self.validators@.take(k as int) =~= self.validators@);
        }
        sum == self.total_delegated
    }
}

impl Vault {
    /// Decides whether the vault is well formed. Every operation of the
    /// vault asks for a well-formed vault and hands one back.
    pub fn is_well_formed(&self) -> (b: bool)
        ensures
            b == self.wf(),
    {
        if !self.registry.is_well_formed() {
            return false;
        }
        let len: usize = self.history.len();
        if self.current_batch.id != len as u64 {
            return false;
        }
        let frontier: usize = if len > 0 && self.history[0].released {
            if self.state.last_processed_batch >= len as u64 {
                return false;
            }
            (self.state.last_processed_batch + 1) as usize
        } else {
            if self.state.last_processed_batch != 0 {
                return false;
            }
            0
        };
        let mut i: usize = 0;
        while i < len
            invariant
                len == self.history@.len(),
                i <= len,
                frontier as int == self@.frontier(),
                forall|k: int| 0 <= k < i ==> (#[trigger] self.history@[k]).batch_id == k,
                forall|k: int|
                    0 <= k < i ==> ((#[trigger] self.history@[k]).released <==> k < frontier),
            decreases len - i,
        {
            if self.history[i].batch_id != i as u64 || self.history[i].released != (i < frontier) {
                return false;
            }
            i += 1;
        }
        let mut closed: u128 = 0;
        let mut j: usize = len;
        while j > frontier
            invariant
                len == self.history@.len(),
                frontier <= j <= len,
                frontier as int == self@.frontier(),
                closed == amount_from(self.history@, j as int),
            decreases j,
        {
            j -= 1;
            closed = match closed.checked_add(self.history[j].amount) {
                Some(c) => c,
                None => {
                    proof {
                        assert(amount_from(self.history@, j as int) == self.history@[j as int].amount
                            + amount_from(self.history@, j + 1));
                        lemma_amount_from_grows(self.history@, frontier as int, j as int);
                    }
                    return false;
                },
            };
        }
        if closed != self.pending_closed {
            return false;
        }
        if self.current_batch.requested_with_fee.checked_add(self.pending_closed).is_none() {
            return false;
        }
        let backing: u128 = match self.state.prev_vault_balance.checked_add(self.bonded_since_check) {
            Some(b) => b,
            None => { return false; },
        };
        match self.state.total_bond_amount.checked_add(self.unbonded_since_check) {
            Some(t) => {
                if t != backing {
                    return false;
                }
            },
            None => { return false; },
        }
        self.params.peg_recovery_fee.atomics <= DECIMAL_FRACTIONAL && self.state.exchange_rate.atomics > 0
    }
}

} // verus!
