//! The whitelist of validators and the stake the vault has placed with each.

use vstd::prelude::*;
use crate::decimal::{multiply_ratio, ratio_floor};
use crate::msg::VaultError;

verus! {

/// A whitelisted validator and the stake delegated to it through the vault.
#[derive(Clone, Debug, PartialEq, Eq)]
pub struct Validator {
    pub address: String,
    pub delegated: u128,
}

/// The validators eligible to receive delegations, in registration order.
#[derive(Clone, Debug, PartialEq, Eq)]
pub struct Registry {
    pub validators: Vec<Validator>,
    pub total_delegated: u128,
}

/// The stake delegated to all of `vs` together.
pub open spec fn sum_delegated(vs: Seq<Validator>) -> nat
    decreases vs.len(),
{
    if vs.len() == 0 {
        0
    } else {
        sum_delegated(vs.drop_last()) + vs.last().delegated as nat
    }
}

/// Whether some validator in `vs` has the address `addr`.
pub open spec fn listed(vs: Seq<Validator>, addr: Seq<char>) -> bool {
    exists|i: int| 0 <= i < vs.len() && (#[trigger] vs[i]).address@ == addr
}

/// Whether `i` is the first validator in `vs` with the least stake.
pub open spec fn least_delegated_at(vs: Seq<Validator>, i: int) -> bool {
    &&& 0 <= i < vs.len()
    &&& forall|j: int| 0 <= j < vs.len() ==> vs[i].delegated <= (#[trigger] vs[j]).delegated
    &&& forall|j: int| 0 <= j < i ==> vs[i].delegated < (#[trigger] vs[j]).delegated
}

/// Adding a validator adds its stake to the sum.
pub(crate) proof fn lemma_sum_push(vs: Seq<Validator>, v: Validator)
    ensures
        sum_delegated(vs.push(v)) == sum_delegated(vs) + v.delegated,
{
    assert(vs.push(v).drop_last() =~= vs);
}

/// Replacing a validator changes the sum by the difference in stake.
pub(crate) proof fn lemma_sum_update(vs: Seq<Validator>, i: int, v: Validator)
    requires
        0 <= i < vs.len(),
    ensures
        sum_delegated(vs.update(i, v)) == sum_delegated(vs) - vs[i].delegated + v.delegated,
    decreases vs.len(),
{
    if i == vs.len() - 1 {
        assert(vs.update(i, v).drop_last() =~= vs.drop_last());
    } else {
        assert(vs.update(i, v).drop_last() =~= vs.drop_last().update(i, v));
        lemma_sum_update(vs.drop_last(), i, v);
    }
}

/// No validator holds more than all of them together.
pub(crate) proof fn lemma_part_le_sum(vs: Seq<Validator>, i: int)
    requires
        0 <= i < vs.len(),
    ensures
        vs[i].delegated <= sum_delegated(vs),
    decreases vs.len(),
{
    if i < vs.len() - 1 {
        lemma_part_le_sum(vs.drop_last(), i);
    }
}

/// Removing a validator takes its stake off the sum.
pub(crate) proof fn lemma_sum_remove(vs: Seq<Validator>, i: int)
    requires
        0 <= i < vs.len(),
    ensures
        sum_delegated(vs.remove(i)) == sum_delegated(vs) - vs[i].delegated,
    decreases vs.len(),
{
    if i == vs.len() - 1 {
        assert(vs.remove(i) =~= vs.drop_last());
    } else {
        assert(vs.remove(i).drop_last() =~= vs.drop_last().remove(i));
        assert(vs.remove(i).last() == vs.last());
        lemma_sum_remove(vs.drop_last(), i);
    }
}

/// The stake delegated to the first `j` validators of `vs`.
pub open spec fn prefix_stake(vs: Seq<Validator>, j: int) -> nat {
    sum_delegated(vs.take(j))
}

/// The stake of the first `j + 1` validators is that of the first `j` and of validator `j`.
pub(crate) proof fn lemma_prefix_step(vs: Seq<Validator>, j: int)
    requires
        0 <= j < vs.len(),
    ensures
        prefix_stake(vs, j + 1) == prefix_stake(vs, j) + vs[j].delegated,
        prefix_stake(vs, 0) == 0,
{
    assert(vs.take(j + 1).drop_last() =~= vs.take(j));
    lemma_prefix_step_zero(vs);
}

/// The first zero validators hold nothing.
pub(crate) proof fn lemma_prefix_step_zero(vs: Seq<Validator>)
    ensures
        prefix_stake(vs, 0) == 0,
{
    assert(vs.take(0) =~= Seq::<Validator>::empty());
}

/// The first `j` validators hold no more than all of them.
pub(crate) proof fn lemma_prefix_le(vs: Seq<Validator>, j: int)
    requires
        0 <= j <= vs.len(),
    ensures
        prefix_stake(vs, j) <= sum_delegated(vs),
    decreases vs.len() - j,
{
    if j == vs.len() {
        assert(vs.take(j) =~= vs);
    } else {
        lemma_prefix_step(vs, j);
        lemma_prefix_le(vs, j + 1);
    }
}

/// A proportional part, rounded down, grows with the part, stays within the whole, and is
/// the whole where the part is everything.
pub(crate) proof fn lemma_ratio_bounds(x: int, p: int, q: int, d: int)
    requires
        0 <= x,
        0 <= p <= q <= d,
        0 < d,
    ensures
        0 <= ratio_floor(x, p, d) <= ratio_floor(x, q, d) <= x,
        ratio_floor(x, d, d) == x,
{
    assert(0 <= x * p <= x * q <= x * d) by (nonlinear_arith)
        requires
            0 <= x,
            0 <= p <= q <= d,
    ;
    let a = x * p;
    let b = x * q;
    let c = x * d;
    assert(0 <= a / d <= b / d <= c / d) by (nonlinear_arith)
        requires
            0 <= a <= b <= c,
            0 < d,
    ;
    assert(c / d == x) by (nonlinear_arith)
        requires
            c == x * d,
            0 < d,
    ;
}

/// Of an amount `x` spread over `rest` in proportion to stake, what the
/// first `j` validators receive together: the proportional part of their
/// joint stake, rounded down. Where `rest` holds no stake at all, the first
/// validator receives everything.
pub open spec fn handed_to_first(x: u128, rest: Seq<Validator>, j: int) -> int {
    if j <= 0 {
        0
    } else if sum_delegated(rest) == 0 {
        x as int
    } else {
        ratio_floor(x as int, prefix_stake(rest, j) as int, sum_delegated(rest) as int)
    }
}

/// What validator `j` of `rest` receives when `x` is spread over `rest`.
pub open spec fn share_of(x: u128, rest: Seq<Validator>, j: int) -> int {
    handed_to_first(x, rest, j + 1) - handed_to_first(x, rest, j)
}

/// `rest` after `x` was spread over it in proportion to stake.
pub open spec fn spread(x: u128, rest: Seq<Validator>) -> Seq<Validator> {
    Seq::new(
        rest.len(),
        |j: int| with_stake(rest[j], (rest[j].delegated + share_of(x, rest, j)) as u128),
    )
}

/// Of an amount `x` taken from `vs` front to back, what the first `j`
/// validators give up together: all their stake, up to `x`.
pub open spec fn taken_from_first(x: u128, vs: Seq<Validator>, j: int) -> int {
    if prefix_stake(vs, j) < x {
        prefix_stake(vs, j) as int
    } else {
        x as int
    }
}

/// What validator `j` gives up when `x` is taken from `vs` front to back.
pub open spec fn taken_of(x: u128, vs: Seq<Validator>, j: int) -> int {
    taken_from_first(x, vs, j + 1) - taken_from_first(x, vs, j)
}

/// `vs` after `x` was taken from it front to back.
pub open spec fn drained(x: u128, vs: Seq<Validator>) -> Seq<Validator> {
    Seq::new(vs.len(), |j: int| with_stake(vs[j], (vs[j].delegated - taken_of(x, vs, j)) as u128))
}

/// The whitelist after the validator at `k` left and its stake was spread
/// over the others.
pub open spec fn without(vs: Seq<Validator>, k: int) -> Seq<Validator> {
    if vs.len() == 1 {
        vs.remove(k)
    } else {
        spread(vs[k].delegated, vs.remove(k))
    }
}

/// `v` with its stake replaced by `delegated`.
pub open spec fn with_stake(v: Validator, delegated: u128) -> Validator {
    Validator { address: v.address, delegated }
}

impl Registry {
    /// No address is listed twice, and the total is the sum of the parts.
    pub open spec fn wf(&self) -> bool {
        &&& forall|i: int, j: int|
            0 <= i < j < self.validators@.len() ==> (#[trigger] self.validators@[i]).address@ != (
            #[trigger] self.validators@[j]).address@
        &&& self.total_delegated == sum_delegated(self.validators@)
    }

    /// An empty whitelist.
    pub fn new() -> (r: Registry)
        ensures
            r.wf(),
            r.validators@.len() == 0,
            r.total_delegated == 0,
    {
        Registry { validators: Vec::new(), total_delegated: 0 }
    }

    /// The position of `addr` in the whitelist, if it is there.
    pub fn find(&self, addr: &String) -> (r: Option<usize>)
        ensures
            r is Some <==> listed(self.validators@, addr@),
            r is Some ==> r->0 < self.validators@.len() && self.validators@[r->0 as int].address@
                == addr@,
            r is Some ==> forall|j: int|
                0 <= j < r->0 ==> (#[trigger] self.validators@[j]).address@ != addr@,
    {
        let mut i: usize = 0;
        while i < self.validators.len()
            invariant
                i <= self.validators@.len(),
                forall|j: int| 0 <= j < i ==> (#[trigger] self.validators@[j]).address@ != addr@,
            decreases self.validators@.len() - i,
        {
            if self.validators[i].address == *addr {
                return Some(i);
            }
            i += 1;
        }
        None
    }

    /// Adds `addr` with no stake, unless it is listed already.
    pub fn register(&mut self, addr: String) -> (r: Result<(), VaultError>)
        requires
            old(self).wf(),
        ensures
            final(self).wf(),
            listed(old(self).validators@, addr@) ==> r == Err::<(), VaultError>(
                VaultError::ValidatorAlreadyWhitelisted,
            ) && *final(self) == *old(self),
            !listed(old(self).validators@, addr@) ==> r is Ok && final(self).validators@ == old(
                self,
            ).validators@.push(Validator { address: addr, delegated: 0 })
                && final(self).total_delegated == old(self).total_delegated,
    {
        if self.find(&addr).is_some() {
            return Err(VaultError::ValidatorAlreadyWhitelisted);
        }
        proof {
            lemma_sum_push(self.validators@, Validator { address: addr, delegated: 0 });
        }
        self.validators.push(Validator { address: addr, delegated: 0 });
        Ok(())
    }

    /// Sets the stake recorded for validator `i`, keeping the total in step.
    pub fn set_stake(&mut self, i: usize, delegated: u128)
        requires
            old(self).wf(),
            i < old(self).validators@.len(),
            old(self).total_delegated - old(self).validators@[i as int].delegated + delegated
                <= u128::MAX,
        ensures
            final(self).wf(),
            final(self).validators@ == old(self).validators@.update(
                i as int,
                with_stake(old(self).validators@[i as int], delegated),
            ),
            final(self).total_delegated == old(self).total_delegated - old(
                self,
            ).validators@[i as int].delegated + delegated,
    {
        proof {
            lemma_part_le_sum(self.validators@, i as int);
            lemma_sum_update(
                self.validators@,
                i as int,
                with_stake(self.validators@[i as int], delegated),
            );
        }
        let previous: u128 = self.validators[i].delegated;
        let address = self.validators[i].address.clone();
        self.validators.set(i, Validator { address, delegated });
        self.total_delegated = self.total_delegated - previous + delegated;
    }

    /// Records `amount` more stake with validator `i`. Refused, with nothing
    /// changed, when the total would no longer fit in 128 bits.
    pub fn delegate(&mut self, i: usize, amount: u128) -> (r: Result<(), VaultError>)
        requires
            old(self).wf(),
            i < old(self).validators@.len(),
        ensures
            final(self).wf(),
            old(self).total_delegated + amount > u128::MAX ==> r == Err::<(), VaultError>(
                VaultError::InvalidAmount,
            ) && *final(self) == *old(self),
            old(self).total_delegated + amount <= u128::MAX ==> r is Ok && final(self).validators@
                == old(self).validators@.update(
                i as int,
                with_stake(
                    old(self).validators@[i as int],
                    (old(self).validators@[i as int].delegated + amount) as u128,
                ),
            ) && final(self).total_delegated == old(self).total_delegated + amount,
    {
        if self.total_delegated.checked_add(amount).is_none() {
            return Err(VaultError::InvalidAmount);
        }
        proof {
            lemma_part_le_sum(self.validators@, i as int);
        }
        let delegated: u128 = self.validators[i].delegated + amount;
        self.set_stake(i, delegated);
        Ok(())
    }

    /// Spreads `x` more stake over the validators in proportion to the stake
    /// they hold. Nothing is lost to rounding: the stakes grow by `x` in all.
    pub fn spread_stake(&mut self, x: u128)
        requires
            old(self).wf(),
            old(self).validators@.len() > 0,
            old(self).total_delegated + x <= u128::MAX,
        ensures
            final(self).wf(),
            final(self).validators@ == spread(x, old(self).validators@),
            final(self).total_delegated == old(self).total_delegated + x,
    {
        let ghost before = self.validators@;
        let total: u128 = self.total_delegated;
        let mut prefix: u128 = 0;
        let mut given: u128 = 0;
        let mut j: usize = 0;
        proof {
            lemma_prefix_step(before, 0);
        }
        while j < self.validators.len()
            invariant
                self.wf(),
                before.len() > 0,
                self.validators@.len() == before.len(),
                j <= before.len(),
                total == sum_delegated(before),
                total + x <= u128::MAX,
                prefix == prefix_stake(before, j as int),
                given == handed_to_first(x, before, j as int),
                given <= x,
                self.total_delegated == total + given,
                forall|k: int|
                    0 <= k < j ==> #[trigger] self.validators@[k] == with_stake(
                        before[k],
                        (before[k].delegated + share_of(x, before, k)) as u128,
                    ),
                forall|k: int| j <= k < before.len() ==> #[trigger] self.validators@[k] == before[k],
            decreases before.len() - j,
        {
            let stake: u128 = self.validators[j].delegated;
            proof {
                lemma_prefix_step(before, j as int);
                lemma_prefix_le(before, j + 1);
                lemma_part_le_sum(self.validators@, j as int);
                if total > 0 {
                    lemma_ratio_bounds(
                        x as int,
                        prefix as int,
                        prefix + stake,
                        total as int,
                    );
                }
            }
            let reached: u128 = prefix + stake;
            let handed: u128 = if total == 0 {
                x
            } else {
                multiply_ratio(x, reached, total)
            };
            let share: u128 = handed - given;
            self.set_stake(j, stake + share);
            prefix = reached;
            given = handed;
            j += 1;
        }
        proof {
            assert(before.take(before.len() as int) =~= before);
            if total > 0 {
                lemma_ratio_bounds(x as int, total as int, total as int, total as int);
            }
            assert(self.validators@ =~= spread(x, before));
        }
    }

    /// Takes `x` of stake from the validators, front to back, and returns
    /// what was taken: `x`, or all the stake there is where that is less.
    pub fn drain_stake(&mut self, x: u128) -> (taken: u128)
        requires
            old(self).wf(),
        ensures
            final(self).wf(),
            final(self).validators@ == drained(x, old(self).validators@),
            final(self).total_delegated == old(self).total_delegated - taken,
            taken == if old(self).total_delegated < x {
                old(self).total_delegated
            } else {
                x
            },
    {
        let ghost before = self.validators@;
        let total: u128 = self.total_delegated;
        let mut prefix: u128 = 0;
        let mut taken: u128 = 0;
        let mut j: usize = 0;
        proof {
            lemma_prefix_step_zero(before);
        }
        while j < self.validators.len()
            invariant
                self.wf(),
                self.validators@.len() == before.len(),
                j <= before.len(),
                total == sum_delegated(before),
                prefix == prefix_stake(before, j as int),
                taken == taken_from_first(x, before, j as int),
                self.total_delegated == total - taken,
                forall|k: int|
                    0 <= k < j ==> #[trigger] self.validators@[k] == with_stake(
                        before[k],
                        (before[k].delegated - taken_of(x, before, k)) as u128,
                    ),
                forall|k: int| j <= k < before.len() ==> #[trigger] self.validators@[k] == before[k],
            decreases before.len() - j,
        {
            let stake: u128 = self.validators[j].delegated;
            proof {
                lemma_prefix_step(before, j as int);
                lemma_prefix_le(before, j + 1);
            }
            let reached: u128 = prefix + stake;
            let upto: u128 = if reached < x {
                reached
            } else {
                x
            };
            let part: u128 = upto - taken;
            self.set_stake(j, stake - part);
            prefix = reached;
            taken = upto;
            j += 1;
        }
        proof {
            assert(before.take(before.len() as int) =~= before);
            assert(self.validators@ =~= drained(x, before));
        }
        taken
    }

    /// Takes `addr` off the whitelist and spreads the stake it held over the
    /// validators that remain, in proportion to theirs. Returns the stake
    /// that was moved.
    ///
    /// Refused where `addr` is not listed, and where it is the only
    /// validator and holds stake that would have nowhere to go. A refusal
    /// changes nothing.
    pub fn deregister(&mut self, addr: &String) -> (r: Result<u128, VaultError>)
        requires
            old(self).wf(),
        ensures
            final(self).wf(),
            match old(self).deregister_error(addr@) {
                Some(e) => r == Err::<u128, VaultError>(e) && *final(self) == *old(self),
                None => {
                    let k = choose|k: int|
                        0 <= k < old(self).validators@.len() && (#[trigger] old(
                            self,
                        ).validators@[k]).address@ == addr@;
                    &&& r == Ok::<u128, VaultError>(old(self).validators@[k].delegated)
                    &&& final(self).validators@ == without(old(self).validators@, k)
                    &&& final(self).total_delegated == old(self).total_delegated
                },
            },
    {
        let k: usize = match self.find(addr) {
            Some(k) => k,
            None => { return Err(VaultError::ValidatorNotWhitelisted); },
        };
        let ghost chosen = choose|k: int|
            0 <= k < self.validators@.len() && (#[trigger] self.validators@[k]).address@ == addr@;
        assert(chosen == k);
        let stake: u128 = self.validators[k].delegated;
        if self.validators.len() == 1 && stake > 0 {
            return Err(VaultError::NoValidatorsRegistered);
        }
        proof {
            lemma_sum_remove(self.validators@, k as int);
            lemma_part_le_sum(self.validators@, k as int);
        }
        let _ = self.validators.remove(k);
        self.total_delegated = self.total_delegated - stake;
        if self.validators.len() > 0 {
            self.spread_stake(stake);
        }
        Ok(stake)
    }

    /// Why taking `addr` off the whitelist is refused, if it is.
    pub open spec fn deregister_error(&self, addr: Seq<char>) -> Option<VaultError> {
        let vs = self.validators@;
        if !listed(vs, addr) {
            Some(VaultError::ValidatorNotWhitelisted)
        } else if vs.len() == 1 && vs[0].delegated > 0 {
            Some(VaultError::NoValidatorsRegistered)
        } else {
            None
        }
    }

    /// The first validator with the least stake. The whitelist must not be
    /// empty.
    pub fn least_delegated(&self) -> (r: usize)
        requires
            self.validators@.len() > 0,
        ensures
            least_delegated_at(self.validators@, r as int),
    {
        let mut best: usize = 0;
        let mut i: usize = 1;
        while i < self.validators.len()
            invariant
                1 <= i <= self.validators@.len(),
                0 <= best < i,
                forall|j: int|
                    0 <= j < i ==> self.validators@[best as int].delegated <= (
                    #[trigger] self.validators@[j]).delegated,
                forall|j: int|
                    0 <= j < best ==> self.validators@[best as int].delegated < (
                    #[trigger] self.validators@[j]).delegated,
            decreases self.validators@.len() - i,
        {
            if self.validators[i].delegated < self.validators[best].delegated {
                best = i;
            }
            i += 1;
        }
        best
    }

    /// Chooses the validator to delegate to: the hint where it is
    /// whitelisted, otherwise the first validator with the least stake.
    pub fn pick(&self, hint: &Option<String>) -> (r: Result<usize, VaultError>)
        ensures
            self.validators@.len() == 0 ==> r == Err::<usize, VaultError>(
                VaultError::NoValidatorsRegistered,
            ),
            self.validators@.len() > 0 ==> r is Ok && r->Ok_0 < self.validators@.len(),
            r is Ok && hint is Some && listed(self.validators@, hint->0@)
                ==> self.validators@[r->Ok_0 as int].address@ == hint->0@,
            r is Ok && !(hint is Some && listed(self.validators@, hint->0@))
                ==> least_delegated_at(self.validators@, r->Ok_0 as int),
    {
        if self.validators.len() == 0 {
            return Err(VaultError::NoValidatorsRegistered);
        }
        match hint {
            Some(h) => {
                match self.find(h) {
                    Some(i) => Ok(i),
                    None => Ok(self.least_delegated()),
                }
            },
            None => Ok(self.least_delegated()),
        }
    }
}

} // verus!
