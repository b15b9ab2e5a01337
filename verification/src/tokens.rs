//! Splitting a claim token into its yield and principal parts, and merging
//! them back. Amounts move one for one; no rate is involved.

use vstd::prelude::*;
use crate::msg::VaultError;

verus! {

/// What one account holds of the three derivative tokens.
#[derive(Clone, Copy, Debug, PartialEq, Eq, Structural)]
pub struct Holdings {
    pub claim: u128,
    pub yield_token: u128,
    pub principal: u128,
}

/// The outcome of splitting `amount` claim tokens out of `h`.
pub open spec fn split_spec(h: Holdings, amount: u128) -> Result<Holdings, VaultError> {
    if amount > h.claim {
        Err(VaultError::InsufficientBalance)
    } else if h.yield_token + amount > u128::MAX || h.principal + amount > u128::MAX {
        Err(VaultError::InvalidAmount)
    } else {
        Ok(
            Holdings {
                claim: (h.claim - amount) as u128,
                yield_token: (h.yield_token + amount) as u128,
                principal: (h.principal + amount) as u128,
            },
        )
    }
}

/// The outcome of merging `amount` of each part token in `h`.
pub open spec fn merge_spec(h: Holdings, amount: u128) -> Result<Holdings, VaultError> {
    if amount > h.yield_token || amount > h.principal {
        Err(VaultError::InsufficientBalance)
    } else if h.claim + amount > u128::MAX {
        Err(VaultError::InvalidAmount)
    } else {
        Ok(
            Holdings {
                claim: (h.claim + amount) as u128,
                yield_token: (h.yield_token - amount) as u128,
                principal: (h.principal - amount) as u128,
            },
        )
    }
}

/// Burns `amount` claim tokens and issues `amount` of each part token.
pub fn split(h: Holdings, amount: u128) -> (r: Result<Holdings, VaultError>)
    ensures
        r == split_spec(h, amount),
{
    if amount > h.claim {
        return Err(VaultError::InsufficientBalance);
    }
    let yield_token: u128 = match h.yield_token.checked_add(amount) {
        Some(v) => v,
        None => { return Err(VaultError::InvalidAmount); },
    };
    let principal: u128 = match h.principal.checked_add(amount) {
        Some(v) => v,
        None => { return Err(VaultError::InvalidAmount); },
    };
    Ok(Holdings { claim: h.claim - amount, yield_token, principal })
}

/// Burns `amount` of each part token and issues `amount` claim tokens.
pub fn merge(h: Holdings, amount: u128) -> (r: Result<Holdings, VaultError>)
    ensures
        r == merge_spec(h, amount),
{
    if amount > h.yield_token || amount > h.principal {
        return Err(VaultError::InsufficientBalance);
    }
    let claim: u128 = match h.claim.checked_add(amount) {
        Some(v) => v,
        None => { return Err(VaultError::InvalidAmount); },
    };
    Ok(Holdings { claim, yield_token: h.yield_token - amount, principal: h.principal - amount })
}

/// Splitting an amount that is held and then merging the same amount gives
/// back the holdings one started with, whenever the part balances have room
/// for the amount.
pub proof fn lemma_split_then_merge(h: Holdings, amount: u128)
    requires
        amount <= h.claim,
        h.yield_token + amount <= u128::MAX,
        h.principal + amount <= u128::MAX,
    ensures
        split_spec(h, amount) is Ok,
        merge_spec(split_spec(h, amount)->Ok_0, amount) == Ok::<Holdings, VaultError>(h),
{
}

/// Merging and then splitting the same amount is the identity as well,
/// whenever the claim balance has room for the amount.
pub proof fn lemma_merge_then_split(h: Holdings, amount: u128)
    requires
        amount <= h.yield_token,
        amount <= h.principal,
        h.claim + amount <= u128::MAX,
    ensures
        merge_spec(h, amount) is Ok,
        split_spec(merge_spec(h, amount)->Ok_0, amount) == Ok::<Holdings, VaultError>(h),
{
}

} // verus!
