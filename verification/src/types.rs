//! Core data model of the sponsorship ledger: pools, their configuration
//! and authorization rules, per-user spending counters, and the append-only
//! transaction log.

use vstd::prelude::*;

verus! {

/// Identifier of a sponsorship pool.
pub type PoolId = u32;

/// Identifier of an account.
pub type AccountId = u64;

/// A currency amount in the smallest unit.
pub type Balance = u128;

/// A point in time, counted in blocks.
pub type BlockNumber = u64;

/// Smallest deposit accepted when creating a pool.
pub const MIN_POOL_DEPOSIT: u128 = 1000;

/// Largest number of destination domains a pool may allow.
pub const MAX_ALLOWED_CHAINS: usize = 100;

/// Largest payload of an authorization rule, in bytes.
pub const MAX_RULE_DATA: usize = 256;

/// Length of the daily spending window, in blocks.
pub const DAILY_WINDOW_BLOCKS: u64 = 14400;

/// Unsigned 128-bit addition saturated at the type's limit.
pub open spec fn sat_add_u128(a: u128, b: u128) -> u128 {
    if a + b > u128::MAX {
        u128::MAX
    } else {
        (a + b) as u128
    }
}

/// Unsigned 128-bit subtraction saturated at zero.
pub open spec fn sat_sub_u128(a: u128, b: u128) -> u128 {
    if a >= b {
        (a - b) as u128
    } else {
        0
    }
}

/// Pool status enumeration.
#[derive(Clone, Copy, Debug, PartialEq, Eq, Structural)]
pub enum PoolStatus {
    Active,
    Paused,
    Closed,
}

/// Authorization rule types. A pool holds at most one rule of each type.
#[derive(Clone, Copy, Debug, PartialEq, Eq, Structural)]
pub enum AuthorizationType {
    UserWhitelist,
    TransactionType,
    SpendingLimit,
}

/// Status of a sponsored transaction. `Executed`, `Failed` and `Refunded`
/// are terminal.
#[derive(Clone, Copy, Debug, PartialEq, Eq, Structural)]
pub enum TransactionStatus {
    Pending,
    Dispatched,
    Executed,
    Failed,
    Refunded,
}

/// Whether a transaction status is terminal: once reached, the lifecycle of
/// the transaction is over and further transitions are no-ops.
pub open spec fn is_terminal(status: TransactionStatus) -> bool {
    status == TransactionStatus::Executed || status == TransactionStatus::Failed || status
        == TransactionStatus::Refunded
}

/// Run-time test for a terminal status.
pub fn status_is_terminal(status: TransactionStatus) -> (r: bool)
    ensures
        r == is_terminal(status),
{
    match status {
        TransactionStatus::Executed => true,
        TransactionStatus::Failed => true,
        TransactionStatus::Refunded => true,
        _ => false,
    }
}

/// Pool configuration parameters.
#[derive(Clone, Debug, PartialEq, Eq)]
pub struct PoolConfig {
    pub max_transaction_value: Balance,
    pub daily_spending_limit: Balance,
    pub allowed_chains: Vec<u32>,
    pub authorization_required: bool,
}

impl PoolConfig {
    /// A configuration is acceptable when its destination list fits the
    /// fixed bound.
    pub open spec fn wf(self) -> bool {
        self.allowed_chains@.len() <= MAX_ALLOWED_CHAINS
    }

    /// Whether the configuration allows the destination domain.
    pub open spec fn allows_chain(self, target_chain: u32) -> bool {
        self.allowed_chains@.contains(target_chain)
    }

    /// Linear search of the allowed-destination list.
    pub fn contains_chain(&self, target_chain: u32) -> (r: bool)
        ensures
            r == self.allows_chain(target_chain),
    {
        let mut i: usize = 0;
        while i < self.allowed_chains.len()
            invariant
                i <= self.allowed_chains@.len(),
                forall|j: int| 0 <= j < i ==> self.allowed_chains@[j] != target_chain,
            decreases self.allowed_chains@.len() - i,
        {
            if self.allowed_chains[i] == target_chain {
                return true;
            }
            i = i + 1;
        }
        false
    }
}

/// Pool record: owner, funds, cumulative committed value, configuration and
/// status.
#[derive(Clone, Debug, PartialEq, Eq)]
pub struct PoolInfo {
    pub owner: AccountId,
    pub balance: Balance,
    pub total_spent: Balance,
    pub created_at: BlockNumber,
    pub config: PoolConfig,
    pub status: PoolStatus,
}

/// Authorization rule definition: its type, an opaque bounded payload and
/// its creation time.
#[derive(Clone, Debug, PartialEq, Eq)]
pub struct AuthorizationRule {
    pub rule_type: AuthorizationType,
    pub data: Vec<u8>,
    pub created_at: BlockNumber,
}

impl AuthorizationRule {
    /// A rule is acceptable when its payload fits the fixed bound.
    pub open spec fn wf(self) -> bool {
        self.data@.len() <= MAX_RULE_DATA
    }
}

/// Per-(pool, user) spending counters: running total, running daily total,
/// and the start of the current daily window.
#[derive(Clone, Copy, Debug, PartialEq, Eq, Structural)]
pub struct SpendingInfo {
    pub total_spent: Balance,
    pub daily_spent: Balance,
    pub last_reset: BlockNumber,
}

impl Default for SpendingInfo {
    /// Fresh counters: nothing spent, window starting at time zero.
    fn default() -> (s: Self)
        ensures
            s == (SpendingInfo { total_spent: 0, daily_spent: 0, last_reset: 0 }),
    {
        SpendingInfo { total_spent: 0, daily_spent: 0, last_reset: 0 }
    }
}

/// Immutable audit entry for one sponsored call attempt; only its status
/// advances as the lifecycle does.
#[derive(Clone, Debug, PartialEq, Eq)]
pub struct TransactionRecord {
    pub id: u64,
    pub pool_id: PoolId,
    pub user: AccountId,
    pub target_chain: u32,
    pub call_hash: Vec<u8>,
    pub gas_cost: Balance,
    pub status: TransactionStatus,
    pub timestamp: BlockNumber,
}

/// Value equality of configurations, with the destination list compared by
/// contents.
pub open spec fn config_eq(a: PoolConfig, b: PoolConfig) -> bool {
    &&& a.max_transaction_value == b.max_transaction_value
    &&& a.daily_spending_limit == b.daily_spending_limit
    &&& a.allowed_chains@ == b.allowed_chains@
    &&& a.authorization_required == b.authorization_required
}

/// Value equality of pool records.
pub open spec fn pool_eq(a: PoolInfo, b: PoolInfo) -> bool {
    &&& a.owner == b.owner
    &&& a.balance == b.balance
    &&& a.total_spent == b.total_spent
    &&& a.created_at == b.created_at
    &&& config_eq(a.config, b.config)
    &&& a.status == b.status
}

/// Value equality of transaction records, with the hash compared by
/// contents.
pub open spec fn record_eq(a: TransactionRecord, b: TransactionRecord) -> bool {
    &&& a.id == b.id
    &&& a.pool_id == b.pool_id
    &&& a.user == b.user
    &&& a.target_chain == b.target_chain
    &&& a.call_hash@ == b.call_hash@
    &&& a.gas_cost == b.gas_cost
    &&& a.status == b.status
    &&& a.timestamp == b.timestamp
}

/// An element-wise copy of a destination list.
pub fn copy_u32_vec(v: &Vec<u32>) -> (r: Vec<u32>)
    ensures
        r@ == v@,
{
    let mut r: Vec<u32> = Vec::new();
    let mut i: usize = 0;
    while i < v.len()
        invariant
            i <= v@.len(),
            r@ == v@.subrange(0, i as int),
        decreases v@.len() - i,
    {
        r.push(v[i]);
        i = i + 1;
    }
    proof {
        assert(r@ =~= v@);
    }
    r
}

/// An element-wise copy of a byte string.
pub fn copy_u8_vec(v: &Vec<u8>) -> (r: Vec<u8>)
    ensures
        r@ == v@,
{
    let mut r: Vec<u8> = Vec::new();
    let mut i: usize = 0;
    while i < v.len()
        invariant
            i <= v@.len(),
            r@ == v@.subrange(0, i as int),
        decreases v@.len() - i,
    {
        r.push(v[i]);
        i = i + 1;
    }
    proof {
        assert(r@ =~= v@);
    }
    r
}

/// A copy of a configuration, equal in contents.
pub fn copy_pool_config(c: &PoolConfig) -> (r: PoolConfig)
    ensures
        config_eq(r, *c),
{
    PoolConfig {
        max_transaction_value: c.max_transaction_value,
        daily_spending_limit: c.daily_spending_limit,
        allowed_chains: copy_u32_vec(&c.allowed_chains),
        authorization_required: c.authorization_required,
    }
}

/// A copy of a pool record, equal in contents.
pub fn copy_pool_info(p: &PoolInfo) -> (r: PoolInfo)
    ensures
        pool_eq(r, *p),
{
    PoolInfo {
        owner: p.owner,
        balance: p.balance,
        total_spent: p.total_spent,
        created_at: p.created_at,
        config: copy_pool_config(&p.config),
        status: p.status,
    }
}

/// A copy of a transaction record, equal in contents.
pub fn copy_record(t: &TransactionRecord) -> (r: TransactionRecord)
    ensures
        record_eq(r, *t),
{
    TransactionRecord {
        id: t.id,
        pool_id: t.pool_id,
        user: t.user,
        target_chain: t.target_chain,
        call_hash: copy_u8_vec(&t.call_hash),
        gas_cost: t.gas_cost,
        status: t.status,
        timestamp: t.timestamp,
    }
}

/// Ledger errors, reported before any state is mutated.
#[derive(Clone, Copy, Debug, PartialEq, Eq, Structural)]
pub enum Error {
    PoolNotFound,
    InsufficientFunds,
    UnauthorizedUser,
    InvalidConfiguration,
    ExceedsSpendingLimit,
    ChainNotSupported,
    TransactionTooLarge,
    PoolPaused,
    PoolClosed,
    NotPoolOwner,
    TooManyPools,
    DepositTooSmall,
}

/// Ledger events, appended in the order the operations committed.
#[derive(Clone, Copy, Debug, PartialEq, Eq, Structural)]
pub enum Event {
    PoolCreated { pool_id: PoolId, owner: AccountId, initial_deposit: Balance },
    PoolFunded { pool_id: PoolId, amount: Balance, new_balance: Balance },
    PoolConfigUpdated { pool_id: PoolId, owner: AccountId },
    TransactionSponsored {
        transaction_id: u64,
        pool_id: PoolId,
        user: AccountId,
        target_chain: u32,
        gas_cost: Balance,
    },
    AuthorizationRuleAdded { pool_id: PoolId, rule_type: AuthorizationType },
    AuthorizationRuleRemoved { pool_id: PoolId, rule_type: AuthorizationType },
}

} // verus!
