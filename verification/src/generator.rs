//! The messages of the generator contract, the component whose ownership is
//! handed over. They are plain declarations: requests, queries and replies,
//! with no rule of their own. Amounts and block heights are held as plain
//! integers, addresses as `cosmwasm_std::Addr`.

use cosmwasm_std::Addr;
use vstd::prelude::*;

verus! {

/// The notice that a token contract sends along with a deposit: who sent
/// the tokens, how many, and the hook message as bytes.
#[derive(Clone, Debug, PartialEq)]
pub struct Cw20Receive {
    /// The account that sent the tokens.
    pub sender: String,
    /// How many tokens were sent.
    pub amount: u128,
    /// The hook message, still encoded.
    pub msg: Vec<u8>,
}

/// What the contract is set up with.
#[derive(Clone, Debug, PartialEq)]
pub struct InstantiateMsg {
    /// The address that controls the contract.
    pub owner: String,
    /// The token that is distributed.
    pub astro_token: String,
    /// How many tokens are distributed per block.
    pub tokens_per_block: u128,
    /// The block at which distribution starts.
    pub start_block: u64,
    /// The reward proxies that may be attached to a pool.
    pub allowed_reward_proxies: Vec<String>,
    /// The contract that vests the distributed token.
    pub vesting_contract: String,
    /// The factory of the pairs.
    pub factory: String,
    /// The contract that sets the pools' allocation, if any.
    pub generator_controller: Option<String>,
    /// The voting escrow contract, if any.
    pub voting_escrow: Option<String>,
    /// The guardian, if any.
    pub guardian: Option<String>,
    /// The code of the whitelist contract.
    pub whitelist_code_id: u64,
}

/// The requests that change the contract's state.
#[derive(Clone, Debug, PartialEq)]
pub enum ExecuteMsg {
    /// Sets another vesting contract.
    UpdateConfig { vesting_contract: Option<String> },
    /// Adds a pool for `lp_token`.
    Add { lp_token: Addr, alloc_point: u64, reward_proxy: Option<String> },
    /// Sets the allocation of the pool of `lp_token`.
    SetAllocPoint { lp_token: Addr, alloc_point: u64 },
    /// Brings the rewards of every pool up to date.
    MassUpdatePools {},
    /// Brings the rewards of one pool up to date.
    UpdatePool { lp_token: Addr },
    /// Takes `amount` of `lp_token` out, with the rewards.
    Withdraw { lp_token: Addr, amount: u128 },
    /// Takes everything out of the pool of `lp_token`, without the rewards.
    EmergencyWithdraw { lp_token: Addr },
    /// Sets the reward proxies that may be attached to a pool.
    SetAllowedRewardProxies { proxies: Vec<String> },
    /// Sends the rewards of a proxy that nobody can claim to `recipient`.
    SendOrphanProxyReward { recipient: String, lp_token: String },
    /// Takes a deposit of a token, with the hook message in it.
    Receive(Cw20Receive),
    /// Sets how many tokens are distributed per block.
    SetTokensPerBlock { amount: u128 },
    /// Proposes `owner` as the new owner, to be claimed within `expires_in`
    /// seconds.
    ProposeNewOwner { owner: String, expires_in: u64 },
    /// Withdraws the pending proposal.
    DropOwnershipProposal {},
    /// Takes the ownership that was proposed to the sender.
    ClaimOwnership {},
    /// Sets all pools and their allocations at once.
    SetupPools { pools: Vec<(String, u128)> },
}

/// The queries.
#[derive(Clone, Debug, PartialEq)]
pub enum QueryMsg {
    /// How many pools there are.
    PoolLength {},
    /// What `user` has deposited of `lp_token`.
    Deposit { lp_token: Addr, user: Addr },
    /// What `user` can claim from the pool of `lp_token`.
    PendingToken { lp_token: Addr, user: Addr },
    /// The contract's settings.
    Config {},
    /// The reward tokens of the pool of `lp_token`.
    RewardInfo { lp_token: Addr },
    /// The proxy rewards of `lp_token` that nobody can claim.
    OrphanProxyRewards { lp_token: Addr },
}

/// The reply to `QueryMsg::PoolLength`.
#[derive(Clone, Debug, PartialEq)]
pub struct PoolLengthResponse {
    /// The number of pools.
    pub length: usize,
}

/// The reply to `QueryMsg::PendingToken`.
#[derive(Clone, Debug, PartialEq)]
pub struct PendingTokenResponse {
    /// The pending amount of the distributed token.
    pub pending: u128,
    /// The pending amount of the proxy's token, where the pool has a proxy.
    pub pending_on_proxy: Option<u128>,
}

/// The reply to `QueryMsg::RewardInfo`.
#[derive(Clone, Debug, PartialEq)]
pub struct RewardInfoResponse {
    /// The token that the contract distributes.
    pub base_reward_token: Addr,
    /// The token that the pool's proxy distributes, where it has one.
    pub proxy_reward_token: Option<Addr>,
}

/// The reply to `QueryMsg::Config`.
#[derive(Clone, Debug, PartialEq)]
pub struct ConfigResponse {
    /// The address that controls the contract.
    pub owner: Addr,
    /// The token that is distributed.
    pub astro_token: Addr,
    /// How many tokens are distributed per block.
    pub tokens_per_block: u128,
    /// The sum of the allocations of all pools.
    pub total_alloc_point: u64,
    /// The block at which distribution starts.
    pub start_block: u64,
    /// The reward proxies that may be attached to a pool.
    pub allowed_reward_proxies: Vec<Addr>,
    /// The contract that vests the distributed token.
    pub vesting_contract: Addr,
}

/// The message of a migration: it carries nothing.
#[derive(Clone, Debug, PartialEq)]
pub struct MigrateMsg {}

/// The hook messages that come with a deposit of a token.
#[derive(Clone, Debug, PartialEq)]
pub enum Cw20HookMsg {
    /// Deposits for the sender.
    Deposit {},
    /// Deposits for the address given.
    DepositFor(Addr),
}

} // verus!
