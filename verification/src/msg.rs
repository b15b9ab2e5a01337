//! Messages accepted by the vault and the records it answers with.

use vstd::prelude::*;
use crate::decimal::Decimal;

verus! {

/// A user's pending unbonding claims: `(batch id, amount of claim tokens)`.
pub type UnbondRequest = Vec<(u64, u128)>;

/// What a vault is created from.
#[derive(Clone, Debug, PartialEq, Eq)]
pub struct InstantiateMsg {
    pub epoch_period: u64,
    pub underlying_coin_denom: String,
    pub unbonding_period: u64,
    pub peg_recovery_fee: Decimal,
    pub er_threshold: Decimal,
    pub validator: String,
}

/// Addresses the vault works with. `creator` is the owner.
#[derive(Clone, Debug, PartialEq, Eq)]
pub struct Config {
    pub creator: String,
    pub yluna_staking: Option<String>,
    pub cluna_contract: Option<String>,
    pub yluna_contract: Option<String>,
    pub pluna_contract: Option<String>,
    pub airdrop_registry_contract: Option<String>,
}

/// Tunable parameters of the unbonding schedule and the recovery fee.
#[derive(Clone, Debug, PartialEq, Eq)]
pub struct Parameters {
    pub epoch_period: u64,
    pub underlying_coin_denom: String,
    pub unbonding_period: u64,
    pub peg_recovery_fee: Decimal,
    pub er_threshold: Decimal,
    pub validator: String,
}

/// The message embedded in a token transfer to the vault.
#[derive(Clone, Copy, Debug, PartialEq, Eq)]
pub enum Cw20HookMsg {
    Unbond {  },
}

/// A token transfer to the vault: who sent how much, and what for.
#[derive(Clone, Debug, PartialEq, Eq)]
pub struct ReceiveMsg {
    pub sender: String,
    pub amount: u128,
    pub hook: Cw20HookMsg,
}

/// The state-changing messages, one variant per operation.
#[derive(Clone, Debug, PartialEq, Eq)]
pub enum ExecuteMsg {
    /// Owner only: replace the owner or wire up collaborator addresses.
    UpdateConfig {
        owner: Option<String>,
        yluna_staking: Option<String>,
        cluna_contract: Option<String>,
        yluna_contract: Option<String>,
        pluna_contract: Option<String>,
        airdrop_registry_contract: Option<String>,
    },
    /// Owner only: add a validator to the whitelist.
    RegisterValidator { validator: String },
    /// Owner only: remove a validator from the whitelist.
    DeregisterValidator { validator: String },
    /// Owner only: change the schedule or the fee.
    UpdateParams {
        epoch_period: Option<u64>,
        unbonding_period: Option<u64>,
        peg_recovery_fee: Option<Decimal>,
        er_threshold: Option<Decimal>,
    },
    /// Delegate the funds sent along and issue claim tokens for them.
    Bond { validator: Option<String> },
    /// Bond, then split the claim tokens issued.
    BondSplit { validator: Option<String> },
    /// Forward accumulated rewards to the collector.
    UpdateGlobalIndex { airdrop_hooks: Option<Vec<Vec<u8>>> },
    /// Pay out the sender's released unbonding claims.
    WithdrawUnbonded {  },
    /// Compare the real balance with the ledger and absorb any loss.
    CheckSlashing {  },
    /// Claim tokens arrived; the embedded hook says what to do with them.
    Receive(ReceiveMsg),
    /// Turn claim tokens into yield and principal tokens.
    Split { amount: u128 },
    /// Turn yield and principal tokens back into claim tokens.
    Merge { amount: u128 },
    /// Self-call only.
    DepositAirdropReward { airdrop_token_contract: String },
    /// Self-call only.
    ClaimAirdrop { airdrop_token_contract: String, airdrop_contract: String, claim_msg: Vec<u8> },
}

/// The read-only questions.
#[derive(Clone, Debug, PartialEq, Eq)]
pub enum QueryMsg {
    Config {  },
    State {  },
    WhitelistedValidators {  },
    CurrentBatch {  },
    WithdrawableUnbonded { address: String },
    Parameters {  },
    UnbondRequests { address: String },
    AllHistory { start_from: Option<u64>, limit: Option<u32> },
}

/// The settlement record of one closed batch.
#[derive(Clone, Copy, Debug, PartialEq, Eq, Structural)]
pub struct UnbondHistory {
    pub batch_id: u64,
    pub time: u64,
    pub amount: u128,
    pub applied_exchange_rate: Decimal,
    pub withdraw_rate: Decimal,
    pub released: bool,
}

/// The aggregate accounting record, as answered to a query.
#[derive(Clone, Copy, Debug, PartialEq, Eq, Structural)]
pub struct StateResponse {
    pub exchange_rate: Decimal,
    pub total_bond_amount: u128,
    pub last_index_modification: u64,
    pub prev_vault_balance: u128,
    pub actual_unbonded_amount: u128,
    pub last_unbonded_time: u64,
    pub last_processed_batch: u64,
}

/// The owner and the collaborator addresses, as answered to a query.
#[derive(Clone, Debug, PartialEq, Eq)]
pub struct ConfigResponse {
    pub owner: String,
    pub yluna_staking: Option<String>,
    pub cluna_contract: Option<String>,
    pub pluna_contract: Option<String>,
    pub yluna_contract: Option<String>,
    pub airdrop_registry_contract: Option<String>,
}

/// The addresses on the whitelist.
#[derive(Clone, Debug, PartialEq, Eq)]
pub struct WhitelistedValidatorsResponse {
    pub validators: Vec<String>,
}

/// The open batch.
#[derive(Clone, Copy, Debug, PartialEq, Eq, Structural)]
pub struct CurrentBatchResponse {
    pub id: u64,
    pub requested_with_fee: u128,
}

/// What a user could withdraw now.
#[derive(Clone, Copy, Debug, PartialEq, Eq, Structural)]
pub struct WithdrawableUnbondedResponse {
    pub withdrawable: u128,
}

/// The claims a user holds.
#[derive(Clone, Debug, PartialEq, Eq)]
pub struct UnbondRequestsResponse {
    pub address: String,
    pub requests: UnbondRequest,
}

/// A page of the history of closed batches.
#[derive(Clone, Debug, PartialEq, Eq)]
pub struct AllHistoryResponse {
    pub history: Vec<UnbondHistory>,
}

/// What a migration carries: nothing.
#[derive(Clone, Copy, Debug, PartialEq, Eq, Structural)]
pub struct MigrateMsg {}

/// Why an operation was refused. A refused operation changes nothing.
#[derive(Clone, Copy, Debug, PartialEq, Eq, Structural)]
pub enum VaultError {
    /// An owner-only operation was called by someone else.
    Unauthorized,
    /// A bond of nothing.
    ZeroAmount,
    /// An amount that is zero where that is meaningless, or too large to
    /// account for.
    InvalidAmount,
    ValidatorAlreadyWhitelisted,
    ValidatorNotWhitelisted,
    NoValidatorsRegistered,
    NothingToWithdraw,
    /// Fewer tokens are held than the operation consumes.
    InsufficientBalance,
    /// The batch asked about has not been released.
    BatchNotReleased,
    /// The real balance could not be obtained.
    SlashingCorrectionFailed,
}

} // verus!
