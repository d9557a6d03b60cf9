//! The pool ledger: the single owner of pool records, balances, spending
//! counters, the audit log and the pending index.
//!
//! Every operation is a single atomic state transition on a [`Pallet`]
//! value; the caller serializes operations, so no two mutations ever
//! interleave. The ledger conserves value: for every pool, the available
//! balance plus the cumulative committed value never exceeds what was
//! deposited into the pool, whatever order reservations, refunds and
//! reconciliations arrive in.
//!
//! External capabilities stay outside: the currency reservation against the
//! owner's account and the transport of messages are performed by the
//! caller around these operations.

use vstd::prelude::*;
use crate::auth::{authorize_spec, AuthorizationEngine, PoolAuthorizations};
use crate::fees::{chain_supported, estimate_of, fallback_fee_of, FeeEstimator, FALLBACK_BASE_FEE, FALLBACK_PER_BYTE_FEE};
use crate::hashing::{blake2b_256, call_hash_of};
use crate::message::MAX_CALL_DATA;
use crate::tracker::{pending_entry_matches, TransactionTracker};
use crate::types::{
    copy_pool_info, copy_record, pool_eq, record_eq,
    sat_add_u128, sat_sub_u128, AccountId, AuthorizationRule, AuthorizationType, Balance,
    BlockNumber, Error, Event, PoolConfig, PoolId, PoolInfo, PoolStatus, SpendingInfo,
    TransactionRecord, TransactionStatus, DAILY_WINDOW_BLOCKS, MAX_ALLOWED_CHAINS, MAX_RULE_DATA,
    MIN_POOL_DEPOSIT,
};

verus! {

/// One row of the spending table, keyed by pool and user.
#[derive(Clone, Copy, Debug, PartialEq, Eq, Structural)]
pub struct SpendingEntry {
    pub pool_id: PoolId,
    pub user: AccountId,
    pub info: SpendingInfo,
}

/// Spending counters with the daily window settled: when the window
/// elapsed, the daily total starts over at the given block.
pub open spec fn reset_if_due(s: SpendingInfo, now: BlockNumber) -> SpendingInfo {
    if (if now >= s.last_reset {
        now - s.last_reset
    } else {
        0
    }) >= DAILY_WINDOW_BLOCKS {
        SpendingInfo { total_spent: s.total_spent, daily_spent: 0, last_reset: now }
    } else {
        s
    }
}

/// Spending counters after one sponsored call: window settled, then both
/// running totals raised by the fee.
pub open spec fn spend_applied(s: SpendingInfo, fee: Balance, now: BlockNumber) -> SpendingInfo {
    let e = reset_if_due(s, now);
    SpendingInfo {
        total_spent: sat_add_u128(e.total_spent, fee),
        daily_spent: sat_add_u128(e.daily_spent, fee),
        last_reset: e.last_reset,
    }
}

/// Spending counters after a refund: both running totals lowered by the
/// refunded amount, clamped at zero.
pub open spec fn refund_applied(s: SpendingInfo, amount: Balance) -> SpendingInfo {
    SpendingInfo {
        total_spent: sat_sub_u128(s.total_spent, amount),
        daily_spent: sat_sub_u128(s.daily_spent, amount),
        last_reset: s.last_reset,
    }
}

/// A pool after reserving a fee: the balance drops by the fee, the
/// committed total rises by it. Meaningful only when the balance covers the
/// fee.
pub open spec fn pool_reserved(p: PoolInfo, fee: Balance) -> PoolInfo {
    PoolInfo {
        balance: (p.balance - fee) as u128,
        total_spent: sat_add_u128(p.total_spent, fee),
        ..p
    }
}

/// A pool after a refund. The amount moved back from the committed total
/// to the balance is clamped at the committed total, so reconciliation can
/// never create value.
pub open spec fn pool_refunded(p: PoolInfo, amount: Balance) -> PoolInfo {
    let applied = if amount <= p.total_spent {
        amount
    } else {
        p.total_spent
    };
    PoolInfo {
        balance: sat_add_u128(p.balance, applied),
        total_spent: (p.total_spent - applied) as u128,
        ..p
    }
}

/// A pool after additional funding.
pub open spec fn pool_funded_by(p: PoolInfo, amount: Balance) -> PoolInfo {
    PoolInfo { balance: sat_add_u128(p.balance, amount), ..p }
}

/// A fresh pool.
pub open spec fn new_pool_spec(
    owner: AccountId,
    deposit: Balance,
    config: PoolConfig,
    now: BlockNumber,
) -> PoolInfo {
    PoolInfo {
        owner,
        balance: deposit,
        total_spent: 0,
        created_at: now,
        config,
        status: PoolStatus::Active,
    }
}

/// The sponsorship ledger state.
pub struct Pallet {
    /// Pool table; a pool's id is its position.
    pub pools: Vec<PoolInfo>,
    /// Authorization table, one rule set per pool.
    pub auths: Vec<PoolAuthorizations>,
    /// Spending table, keyed by (pool, user); rows are created lazily.
    pub spending: Vec<SpendingEntry>,
    /// The audit log and the pending index.
    pub tracker: TransactionTracker,
    /// Events of committed operations, oldest first.
    pub events: Vec<Event>,
    /// Cumulative deposits per pool, kept for the conservation argument.
    pub funded: Ghost<Seq<int>>,
}

/// Whether a spending table holds a row for the pool and user.
pub open spec fn table_has(t: Seq<SpendingEntry>, pool_id: PoolId, user: AccountId) -> bool {
    exists|i: int|
        0 <= i < t.len() && (#[trigger] t[i]).pool_id == pool_id && t[i].user == user
}

/// The row index of the pool and user in a spending table; with unique
/// keys, the only one.
pub open spec fn table_index(t: Seq<SpendingEntry>, pool_id: PoolId, user: AccountId) -> int {
    choose|i: int|
        0 <= i < t.len() && (#[trigger] t[i]).pool_id == pool_id && t[i].user == user
}

/// The counters a spending table holds for the pool and user; fresh
/// counters when no row exists yet.
pub open spec fn table_lookup(t: Seq<SpendingEntry>, pool_id: PoolId, user: AccountId) -> SpendingInfo {
    if table_has(t, pool_id, user) {
        t[table_index(t, pool_id, user)].info
    } else {
        SpendingInfo { total_spent: 0, daily_spent: 0, last_reset: 0 }
    }
}

/// Two ledger states with the same contents.
pub open spec fn same_state(a: Pallet, b: Pallet) -> bool {
    &&& a.pools@ == b.pools@
    &&& a.auths@ == b.auths@
    &&& a.spending@ == b.spending@
    &&& a.tracker.log@ == b.tracker.log@
    &&& a.tracker.pending@ == b.tracker.pending@
    &&& a.events@ == b.events@
    &&& a.funded@ == b.funded@
}

impl Pallet {
    /// Well-formedness of the ledger.
    ///
    /// The parallel tables agree in length, every configuration and rule
    /// set is bounded, spending rows have unique keys, the tracker is
    /// well-formed and every pending entry points at an existing pool —
    /// and, centrally, each pool conserves value: balance plus committed
    /// total never exceeds what was deposited.
    pub open spec fn wf(self) -> bool {
        &&& self.auths@.len() == self.pools@.len()
        &&& self.funded@.len() == self.pools@.len()
        &&& self.pools@.len() <= u32::MAX
        &&& forall|i: int| 0 <= i < self.pools@.len() ==> (#[trigger] self.pools@[i]).config.wf()
        &&& forall|i: int|
            0 <= i < self.pools@.len() ==> (#[trigger] self.pools@[i]).balance
                + self.pools@[i].total_spent <= self.funded@[i]
        &&& forall|i: int| 0 <= i < self.auths@.len() ==> (#[trigger] self.auths@[i]).wf()
        &&& self.tracker.wf()
        &&& forall|i: int|
            0 <= i < self.tracker.pending@.len() ==> (#[trigger] self.tracker.pending@[i]).pool_id
                < self.pools@.len()
        &&& forall|i: int|
            0 <= i < self.tracker.pending@.len() ==> (#[trigger] self.tracker.pending@[
            i]).transaction_id < self.tracker.log@.len()
        &&& forall|i: int, j: int|
            0 <= i < j < self.spending@.len() ==> !((#[trigger] self.spending@[i]).pool_id == (
            #[trigger] self.spending@[j]).pool_id && self.spending@[i].user
                == self.spending@[j].user)
    }

    /// Whether the pool id names a pool.
    pub open spec fn has_pool(self, pool_id: PoolId) -> bool {
        (pool_id as int) < self.pools@.len()
    }

    /// The pool with the given id.
    pub open spec fn pool_at(self, pool_id: PoolId) -> PoolInfo {
        self.pools@[pool_id as int]
    }

    /// Whether the spending table has a row for the pool and user.
    pub open spec fn has_spending(self, pool_id: PoolId, user: AccountId) -> bool {
        table_has(self.spending@, pool_id, user)
    }

    /// The row index of the pool and user; with unique keys, the only one.
    pub open spec fn spending_index(self, pool_id: PoolId, user: AccountId) -> int {
        table_index(self.spending@, pool_id, user)
    }

    /// The spending counters of a user in a pool; fresh counters when no
    /// row exists yet.
    pub open spec fn user_spending_spec(self, pool_id: PoolId, user: AccountId) -> SpendingInfo {
        table_lookup(self.spending@, pool_id, user)
    }

    /// An empty ledger.
    pub fn new() -> (r: Pallet)
        ensures
            r.wf(),
            r.pools@.len() == 0,
            r.spending@.len() == 0,
            r.tracker.log@.len() == 0,
            r.tracker.pending@.len() == 0,
            r.events@.len() == 0,
    {
        Pallet {
            pools: Vec::new(),
            auths: Vec::new(),
            spending: Vec::new(),
            tracker: TransactionTracker::new(),
            events: Vec::new(),
            funded: Ghost(Seq::empty()),
        }
    }

    /// Create a new sponsorship pool.
    ///
    /// The caller must already hold `initial_deposit` reserved from the
    /// owner's external account. The new pool takes the next sequential id,
    /// starts `Active` with the deposit as its balance and nothing spent.
    pub fn create_pool(
        &mut self,
        who: AccountId,
        initial_deposit: Balance,
        config: PoolConfig,
        now: BlockNumber,
    ) -> (r: Result<PoolId, Error>)
        requires
            old(self).wf(),
        ensures
            final(self).wf(),
            match r {
                Ok(pool_id) => {
                    &&& initial_deposit >= MIN_POOL_DEPOSIT
                    &&& config.wf()
                    &&& old(self).pools@.len() < u32::MAX
                    &&& pool_id == old(self).pools@.len()
                    &&& final(self).pools@ == old(self).pools@.push(
                        new_pool_spec(who, initial_deposit, config, now),
                    )
                    &&& final(self).auths@.len() == old(self).auths@.len() + 1
                    &&& final(self).auths@.subrange(0, old(self).auths@.len() as int) == old(
                        self,
                    ).auths@
                    &&& final(self).auths@.last().user_whitelist is None
                    &&& final(self).auths@.last().transaction_type is None
                    &&& final(self).auths@.last().spending_limit is None
                    &&& final(self).events@ == old(self).events@.push(
                        Event::PoolCreated { pool_id, owner: who, initial_deposit },
                    )
                    &&& final(self).spending@ == old(self).spending@
                    &&& final(self).tracker.log@ == old(self).tracker.log@
                    &&& final(self).tracker.pending@ == old(self).tracker.pending@
                },
                Err(e) => {
                    &&& same_state(*old(self), *final(self))
                    &&& e == if initial_deposit < MIN_POOL_DEPOSIT {
                        Error::DepositTooSmall
                    } else if !config.wf() {
                        Error::InvalidConfiguration
                    } else {
                        Error::TooManyPools
                    }
                    &&& (initial_deposit < MIN_POOL_DEPOSIT || !config.wf() || old(
                        self,
                    ).pools@.len() == u32::MAX)
                },
            },
    {
        if initial_deposit < MIN_POOL_DEPOSIT {
            return Err(Error::DepositTooSmall);
        }
        if config.allowed_chains.len() > MAX_ALLOWED_CHAINS {
            return Err(Error::InvalidConfiguration);
        }
        if self.pools.len() >= u32::MAX as usize {
            return Err(Error::TooManyPools);
        }
        let pool_id = self.pools.len() as u32;
        let pool_info = PoolInfo {
            owner: who,
            balance: initial_deposit,
            total_spent: 0,
            created_at: now,
            config,
            status: PoolStatus::Active,
        };
        self.pools.push(pool_info);
        self.auths.push(PoolAuthorizations::empty());
        self.funded = Ghost(self.funded@.push(initial_deposit as int));
        self.events.push(Event::PoolCreated { pool_id, owner: who, initial_deposit });
        Ok(pool_id)
    }

    /// Fund an existing pool; owner-only, and only while the pool is
    /// active. Returns the new balance.
    ///
    /// The caller must already hold `amount` reserved from the owner's
    /// external account.
    pub fn fund_pool(&mut self, pool_id: PoolId, who: AccountId, amount: Balance) -> (r: Result<
        Balance,
        Error,
    >)
        requires
            old(self).wf(),
        ensures
            final(self).wf(),
            match r {
                Ok(new_balance) => {
                    &&& fund_pool_denial(*old(self), pool_id, who) is None
                    &&& new_balance == sat_add_u128(old(self).pool_at(pool_id).balance, amount)
                    &&& final(self).pools@ == old(self).pools@.update(
                        pool_id as int,
                        pool_funded_by(old(self).pool_at(pool_id), amount),
                    )
                    &&& final(self).events@ == old(self).events@.push(
                        Event::PoolFunded { pool_id, amount, new_balance },
                    )
                    &&& final(self).auths@ == old(self).auths@
                    &&& final(self).spending@ == old(self).spending@
                    &&& final(self).tracker.log@ == old(self).tracker.log@
                    &&& final(self).tracker.pending@ == old(self).tracker.pending@
                },
                Err(e) => {
                    &&& same_state(*old(self), *final(self))
                    &&& fund_pool_denial(*old(self), pool_id, who) == Some(e)
                },
            },
    {
        if pool_id as usize >= self.pools.len() {
            return Err(Error::PoolNotFound);
        }
        let i = pool_id as usize;
        if self.pools[i].owner != who {
            return Err(Error::NotPoolOwner);
        }
        match self.pools[i].status {
            PoolStatus::Active => {},
            PoolStatus::Paused => {
                return Err(Error::PoolPaused);
            },
            PoolStatus::Closed => {
                return Err(Error::PoolClosed);
            },
        }
        let new_balance = self.pools[i].balance.saturating_add(amount);
        self.pools[i].balance = new_balance;
        self.funded = Ghost(self.funded@.update(i as int, self.funded@[i as int] + amount));
        self.events.push(Event::PoolFunded { pool_id, amount, new_balance });
        Ok(new_balance)
    }

    /// Replace a pool's configuration wholesale; owner-only. Already
    /// in-flight transactions are not affected retroactively.
    pub fn update_pool_config(&mut self, pool_id: PoolId, who: AccountId, new_config: PoolConfig) -> (r:
        Result<(), Error>)
        requires
            old(self).wf(),
        ensures
            final(self).wf(),
            match r {
                Ok(_) => {
                    &&& old(self).has_pool(pool_id)
                    &&& old(self).pool_at(pool_id).owner == who
                    &&& new_config.wf()
                    &&& final(self).pools@ == old(self).pools@.update(
                        pool_id as int,
                        PoolInfo { config: new_config, ..old(self).pool_at(pool_id) },
                    )
                    &&& final(self).events@ == old(self).events@.push(
                        Event::PoolConfigUpdated { pool_id, owner: who },
                    )
                    &&& final(self).auths@ == old(self).auths@
                    &&& final(self).spending@ == old(self).spending@
                    &&& final(self).tracker.log@ == old(self).tracker.log@
                    &&& final(self).tracker.pending@ == old(self).tracker.pending@
                },
                Err(e) => {
                    &&& same_state(*old(self), *final(self))
                    &&& e == if !old(self).has_pool(pool_id) {
                        Error::PoolNotFound
                    } else if old(self).pool_at(pool_id).owner != who {
                        Error::NotPoolOwner
                    } else {
                        Error::InvalidConfiguration
                    }
                    &&& (!old(self).has_pool(pool_id) || old(self).pool_at(pool_id).owner != who
                        || !new_config.wf())
                },
            },
    {
        if pool_id as usize >= self.pools.len() {
            return Err(Error::PoolNotFound);
        }
        let i = pool_id as usize;
        if self.pools[i].owner != who {
            return Err(Error::NotPoolOwner);
        }
        if new_config.allowed_chains.len() > MAX_ALLOWED_CHAINS {
            return Err(Error::InvalidConfiguration);
        }
        self.pools[i].config = new_config;
        self.events.push(Event::PoolConfigUpdated { pool_id, owner: who });
        Ok(())
    }

    /// Add an authorization rule to a pool; owner-only. A rule of the same
    /// type overwrites the previous one.
    pub fn add_authorization_rule(&mut self, pool_id: PoolId, who: AccountId, rule: AuthorizationRule) -> (r:
        Result<(), Error>)
        requires
            old(self).wf(),
        ensures
            final(self).wf(),
            match r {
                Ok(_) => {
                    &&& old(self).has_pool(pool_id)
                    &&& old(self).pool_at(pool_id).owner == who
                    &&& rule.wf()
                    &&& final(self).auths@ == old(self).auths@.update(
                        pool_id as int,
                        old(self).auths@[pool_id as int].with_rule(rule.rule_type, Some(rule)),
                    )
                    &&& final(self).events@ == old(self).events@.push(
                        Event::AuthorizationRuleAdded { pool_id, rule_type: rule.rule_type },
                    )
                    &&& final(self).pools@ == old(self).pools@
                    &&& final(self).spending@ == old(self).spending@
                    &&& final(self).tracker.log@ == old(self).tracker.log@
                    &&& final(self).tracker.pending@ == old(self).tracker.pending@
                },
                Err(e) => {
                    &&& same_state(*old(self), *final(self))
                    &&& e == if !old(self).has_pool(pool_id) {
                        Error::PoolNotFound
                    } else if old(self).pool_at(pool_id).owner != who {
                        Error::NotPoolOwner
                    } else {
                        Error::InvalidConfiguration
                    }
                    &&& (!old(self).has_pool(pool_id) || old(self).pool_at(pool_id).owner != who
                        || !rule.wf())
                },
            },
    {
        if pool_id as usize >= self.pools.len() {
            return Err(Error::PoolNotFound);
        }
        let i = pool_id as usize;
        if self.pools[i].owner != who {
            return Err(Error::NotPoolOwner);
        }
        if rule.data.len() > MAX_RULE_DATA {
            return Err(Error::InvalidConfiguration);
        }
        let rule_type = rule.rule_type;
        match rule_type {
            AuthorizationType::UserWhitelist => {
                self.auths[i].user_whitelist = Some(rule);
            },
            AuthorizationType::TransactionType => {
                self.auths[i].transaction_type = Some(rule);
            },
            AuthorizationType::SpendingLimit => {
                self.auths[i].spending_limit = Some(rule);
            },
        }
        self.events.push(Event::AuthorizationRuleAdded { pool_id, rule_type });
        Ok(())
    }

    /// Remove a pool's authorization rule of the given type; owner-only.
    /// Removing an absent rule is a no-op.
    pub fn remove_authorization_rule(
        &mut self,
        pool_id: PoolId,
        who: AccountId,
        rule_type: AuthorizationType,
    ) -> (r: Result<(), Error>)
        requires
            old(self).wf(),
        ensures
            final(self).wf(),
            match r {
                Ok(_) => {
                    &&& old(self).has_pool(pool_id)
                    &&& old(self).pool_at(pool_id).owner == who
                    &&& final(self).auths@ == old(self).auths@.update(
                        pool_id as int,
                        old(self).auths@[pool_id as int].with_rule(rule_type, None),
                    )
                    &&& final(self).events@ == old(self).events@.push(
                        Event::AuthorizationRuleRemoved { pool_id, rule_type },
                    )
                    &&& final(self).pools@ == old(self).pools@
                    &&& final(self).spending@ == old(self).spending@
                    &&& final(self).tracker.log@ == old(self).tracker.log@
                    &&& final(self).tracker.pending@ == old(self).tracker.pending@
                },
                Err(e) => {
                    &&& same_state(*old(self), *final(self))
                    &&& e == if !old(self).has_pool(pool_id) {
                        Error::PoolNotFound
                    } else {
                        Error::NotPoolOwner
                    }
                    &&& (!old(self).has_pool(pool_id) || old(self).pool_at(pool_id).owner != who)
                },
            },
    {
        if pool_id as usize >= self.pools.len() {
            return Err(Error::PoolNotFound);
        }
        let i = pool_id as usize;
        if self.pools[i].owner != who {
            return Err(Error::NotPoolOwner);
        }
        match rule_type {
            AuthorizationType::UserWhitelist => {
                self.auths[i].user_whitelist = None;
            },
            AuthorizationType::TransactionType => {
                self.auths[i].transaction_type = None;
            },
            AuthorizationType::SpendingLimit => {
                self.auths[i].spending_limit = None;
            },
        }
        self.events.push(Event::AuthorizationRuleRemoved { pool_id, rule_type });
        Ok(())
    }

    /// Pool lookup.
    pub fn pools(&self, pool_id: PoolId) -> (r: Option<&PoolInfo>)
        ensures
            match r {
                Some(p) => self.has_pool(pool_id) && *p == self.pool_at(pool_id),
                None => !self.has_pool(pool_id),
            },
    {
        if (pool_id as usize) < self.pools.len() {
            Some(&self.pools[pool_id as usize])
        } else {
            None
        }
    }

    /// Pool lookup, as served to read-only callers.
    pub fn get_pool_info(&self, pool_id: PoolId) -> (r: Option<&PoolInfo>)
        ensures
            match r {
                Some(p) => self.has_pool(pool_id) && *p == self.pool_at(pool_id),
                None => !self.has_pool(pool_id),
            },
    {
        self.pools(pool_id)
    }

    /// The next pool id to be assigned.
    pub fn next_pool_id(&self) -> (r: PoolId)
        requires
            self.wf(),
        ensures
            r == self.pools@.len(),
    {
        self.pools.len() as u32
    }

    /// The next transaction id to be assigned.
    pub fn next_transaction_id(&self) -> (r: u64)
        ensures
            r == self.tracker.log@.len(),
    {
        self.tracker.log.len() as u64
    }

    /// Transaction-log lookup.
    pub fn transaction_log(&self, transaction_id: u64) -> (r: Option<&TransactionRecord>)
        ensures
            match r {
                Some(t) => self.tracker.has_record(transaction_id) && *t == self.tracker.record_at(
                    transaction_id,
                ),
                None => !self.tracker.has_record(transaction_id),
            },
    {
        if transaction_id < self.tracker.log.len() as u64 {
            Some(&self.tracker.log[transaction_id as usize])
        } else {
            None
        }
    }

    /// Authorization-rule lookup by pool and rule type.
    pub fn pool_authorizations(&self, pool_id: PoolId, rule_type: AuthorizationType) -> (r: Option<
        &AuthorizationRule,
    >)
        requires
            self.wf(),
        ensures
            match r {
                Some(rule) => self.has_pool(pool_id) && self.auths@[pool_id as int].rule_of(
                    rule_type,
                ) == Some(*rule),
                None => !self.has_pool(pool_id) || self.auths@[pool_id as int].rule_of(
                    rule_type,
                ) is None,
            },
    {
        if (pool_id as usize) >= self.pools.len() {
            return None;
        }
        let slot = match rule_type {
            AuthorizationType::UserWhitelist => &self.auths[pool_id as usize].user_whitelist,
            AuthorizationType::TransactionType => &self.auths[pool_id as usize].transaction_type,
            AuthorizationType::SpendingLimit => &self.auths[pool_id as usize].spending_limit,
        };
        match slot {
            Some(rule) => Some(rule),
            None => None,
        }
    }

    /// The spending counters of a user in a pool; fresh counters when the
    /// user never spent there.
    pub fn user_spending(&self, pool_id: PoolId, user: AccountId) -> (r: SpendingInfo)
        requires
            self.wf(),
        ensures
            r == self.user_spending_spec(pool_id, user),
    {
        match self.find_spending(pool_id, user) {
            Some(i) => self.spending[i].info,
            None => SpendingInfo { total_spent: 0, daily_spent: 0, last_reset: 0 },
        }
    }

    /// Linear search of the spending table for a (pool, user) row.
    fn find_spending(&self, pool_id: PoolId, user: AccountId) -> (r: Option<usize>)
        requires
            self.wf(),
        ensures
            match r {
                Some(i) => {
                    &&& self.has_spending(pool_id, user)
                    &&& i as int == self.spending_index(pool_id, user)
                    &&& i < self.spending@.len()
                    &&& self.spending@[i as int].pool_id == pool_id
                    &&& self.spending@[i as int].user == user
                },
                None => !self.has_spending(pool_id, user),
            },
    {
        let mut i: usize = 0;
        while i < self.spending.len()
            invariant
                self.wf(),
                i <= self.spending@.len(),
                forall|j: int|
                    0 <= j < i ==> !(self.spending@[j].pool_id == pool_id && self.spending@[j].user
                        == user),
            decreases self.spending@.len() - i,
        {
            if self.spending[i].pool_id == pool_id && self.spending[i].user == user {
                proof {
                    assert(self.spending@[i as int].pool_id == pool_id && self.spending@[
                        i as int
                    ].user == user);
                    let k = self.spending_index(pool_id, user);
                    if k != i as int {
                        assert(self.spending@[k].pool_id == pool_id && self.spending@[k].user
                            == user);
                        assert(false);
                    }
                }
                return Some(i);
            }
            i = i + 1;
        }
        None
    }

    /// The events of committed operations, oldest first.
    pub fn events(&self) -> (r: &Vec<Event>)
        ensures
            r@ == self.events@,
    {
        &self.events
    }

    /// Write the spending counters of one (pool, user) key, creating its
    /// row when absent. Every other key keeps its counters.
    pub(crate) fn set_spending(&mut self, pool_id: PoolId, user: AccountId, info: SpendingInfo)
        requires
            old(self).wf(),
        ensures
            final(self).wf(),
            final(self).user_spending_spec(pool_id, user) == info,
            forall|p: PoolId, u: AccountId|
                !(p == pool_id && u == user) ==> #[trigger] table_lookup(
                    final(self).spending@,
                    p,
                    u,
                ) == table_lookup(old(self).spending@, p, u),
            final(self).pools@ == old(self).pools@,
            final(self).auths@ == old(self).auths@,
            final(self).tracker.log@ == old(self).tracker.log@,
            final(self).tracker.pending@ == old(self).tracker.pending@,
            final(self).events@ == old(self).events@,
            final(self).funded@ == old(self).funded@,
    {
        match self.find_spending(pool_id, user) {
            Some(i) => {
                self.spending[i].info = info;
                proof {
                    let t0 = old(self).spending@;
                    let t1 = self.spending@;
                    assert(forall|j: int|
                        0 <= j < t1.len() ==> (#[trigger] t1[j]).pool_id == t0[j].pool_id && t1[j].user
                            == t0[j].user);
                    assert(t1[i as int].pool_id == pool_id && t1[i as int].user == user);
                    assert(table_has(t1, pool_id, user));
                    let k = table_index(t1, pool_id, user);
                    if k != i as int {
                        assert(t0[k].pool_id == pool_id && t0[k].user == user);
                        assert(false);
                    }
                    assert(table_lookup(t1, pool_id, user) == info);
                    assert forall|p: PoolId, u: AccountId| !(p == pool_id && u == user) implies #[trigger] table_lookup(
                        t1,
                        p,
                        u,
                    ) == table_lookup(t0, p, u) by {
                        if table_has(t0, p, u) {
                            let j = table_index(t0, p, u);
                            assert(t1[j].pool_id == p && t1[j].user == u);
                            assert(table_has(t1, p, u));
                            let m = table_index(t1, p, u);
                            if m != j {
                                assert(t0[m].pool_id == p && t0[m].user == u);
                                assert(false);
                            }
                            assert(j != i as int);
                            assert(t1[j] == t0[j]);
                        } else {
                            if table_has(t1, p, u) {
                                let m = table_index(t1, p, u);
                                assert(t0[m].pool_id == p && t0[m].user == u);
                                assert(false);
                            }
                        }
                    }
                }
            },
            None => {
                self.spending.push(SpendingEntry { pool_id, user, info });
                proof {
                    let t0 = old(self).spending@;
                    let t1 = self.spending@;
                    let n = t0.len() as int;
                    assert(t1[n].pool_id == pool_id && t1[n].user == user);
                    assert(table_has(t1, pool_id, user));
                    let k = table_index(t1, pool_id, user);
                    if k != n {
                        assert(t0[k].pool_id == pool_id && t0[k].user == user);
                        assert(false);
                    }
                    assert(table_lookup(t1, pool_id, user) == info);
                    assert forall|p: PoolId, u: AccountId| !(p == pool_id && u == user) implies #[trigger] table_lookup(
                        t1,
                        p,
                        u,
                    ) == table_lookup(t0, p, u) by {
                        if table_has(t0, p, u) {
                            let j = table_index(t0, p, u);
                            assert(t1[j].pool_id == p && t1[j].user == u);
                            assert(table_has(t1, p, u));
                            let m = table_index(t1, p, u);
                            if m != j {
                                if m < n {
                                    assert(t0[m].pool_id == p && t0[m].user == u);
                                    assert(false);
                                } else {
                                    assert(false);
                                }
                            }
                            assert(t1[j] == t0[j]);
                        } else {
                            if table_has(t1, p, u) {
                                let m = table_index(t1, p, u);
                                if m < n {
                                    assert(t0[m].pool_id == p && t0[m].user == u);
                                }
                                assert(false);
                            }
                        }
                    }
                }
            },
        }
    }

    /// Atomically check and decrement a pool's balance against a fee,
    /// raising its committed total by the same amount.
    fn reserve_from_pool(&mut self, pool_id: PoolId, fee: Balance)
        requires
            old(self).wf(),
            old(self).has_pool(pool_id),
            old(self).pool_at(pool_id).balance >= fee,
        ensures
            final(self).wf(),
            final(self).pools@ == old(self).pools@.update(
                pool_id as int,
                pool_reserved(old(self).pool_at(pool_id), fee),
            ),
            final(self).auths@ == old(self).auths@,
            final(self).spending@ == old(self).spending@,
            final(self).tracker.log@ == old(self).tracker.log@,
            final(self).tracker.pending@ == old(self).tracker.pending@,
            final(self).events@ == old(self).events@,
            final(self).funded@ == old(self).funded@,
    {
        let i = pool_id as usize;
        let new_balance = self.pools[i].balance - fee;
        self.pools[i].balance = new_balance;
        self.pools[i].total_spent = self.pools[i].total_spent.saturating_add(fee);
    }

    /// Charge one sponsored call against a user's counters: the daily
    /// window is settled, then both running totals rise by the fee.
    fn record_spend(&mut self, pool_id: PoolId, user: AccountId, fee: Balance, now: BlockNumber)
        requires
            old(self).wf(),
        ensures
            final(self).wf(),
            final(self).user_spending_spec(pool_id, user) == spend_applied(
                old(self).user_spending_spec(pool_id, user),
                fee,
                now,
            ),
            forall|p: PoolId, u: AccountId|
                !(p == pool_id && u == user) ==> #[trigger] table_lookup(
                    final(self).spending@,
                    p,
                    u,
                ) == table_lookup(old(self).spending@, p, u),
            final(self).pools@ == old(self).pools@,
            final(self).auths@ == old(self).auths@,
            final(self).tracker.log@ == old(self).tracker.log@,
            final(self).tracker.pending@ == old(self).tracker.pending@,
            final(self).events@ == old(self).events@,
            final(self).funded@ == old(self).funded@,
    {
        let stored = self.user_spending(pool_id, user);
        let settled = settle_window(stored, now);
        let updated = SpendingInfo {
            total_spent: settled.total_spent.saturating_add(fee),
            daily_spent: settled.daily_spent.saturating_add(fee),
            last_reset: settled.last_reset,
        };
        self.set_spending(pool_id, user, updated);
    }

    /// Sponsor a cross-chain call from a pool.
    ///
    /// Checks run in this order, and a refused call leaves the ledger
    /// untouched: the pool must exist and be active; the destination must
    /// be on the pool's own list and in the fee table; the pool's
    /// authorization rules must allow the call; the balance must cover the
    /// estimated fee; and the payload must fit an outbound message. On
    /// success the fee is atomically reserved — balance down, committed
    /// total up — the call is logged and registered as in flight, and the
    /// message is handed to the transport.
    pub fn sponsor_transaction(
        &mut self,
        pool_id: PoolId,
        who: AccountId,
        target_chain: u32,
        call_data: Vec<u8>,
        now: BlockNumber,
    ) -> (r: Result<u64, Error>)
        requires
            old(self).wf(),
        ensures
            final(self).wf(),
            match r {
                Ok(tx_id) => {
                    &&& sponsor_denial(
                        *old(self),
                        pool_id,
                        who,
                        target_chain,
                        call_data@,
                        now,
                    ) is None
                    &&& sponsor_effects(
                        *old(self),
                        *final(self),
                        pool_id,
                        who,
                        target_chain,
                        call_data@,
                        now,
                        tx_id,
                    )
                },
                Err(e) => {
                    &&& same_state(*old(self), *final(self))
                    &&& sponsor_denial(*old(self), pool_id, who, target_chain, call_data@, now)
                        == Some(e)
                },
            },
    {
        if pool_id as usize >= self.pools.len() {
            return Err(Error::PoolNotFound);
        }
        let i = pool_id as usize;
        match self.pools[i].status {
            PoolStatus::Active => {},
            PoolStatus::Paused => {
                return Err(Error::PoolPaused);
            },
            PoolStatus::Closed => {
                return Err(Error::PoolClosed);
            },
        }
        if !self.pools[i].config.contains_chain(target_chain) {
            return Err(Error::ChainNotSupported);
        }
        let estimated_gas_cost = match FeeEstimator::estimate_fee(
            target_chain,
            call_data.as_slice(),
        ) {
            Ok(fee) => fee,
            Err(_) => {
                return Err(Error::ChainNotSupported);
            },
        };
        let stored = self.user_spending(pool_id, who);
        let settled = settle_window(stored, now);
        match AuthorizationEngine::authorize(
            &self.pools[i].config,
            &self.auths[i],
            &settled,
            who,
            call_data.as_slice(),
            estimated_gas_cost,
        ) {
            Some(e) => {
                return Err(e);
            },
            None => {},
        }
        if self.pools[i].balance < estimated_gas_cost {
            return Err(Error::InsufficientFunds);
        }
        if call_data.len() == 0 || call_data.len() > MAX_CALL_DATA {
            return Err(Error::ChainNotSupported);
        }
        let call_hash = blake2b_256(call_data.as_slice());
        let transaction_id = self.tracker.append_record(
            pool_id,
            who,
            target_chain,
            call_hash,
            estimated_gas_cost,
            now,
        );
        self.reserve_from_pool(pool_id, estimated_gas_cost);
        self.record_spend(pool_id, who, estimated_gas_cost, now);
        match crate::gateway::XcmGateway::send_cross_chain_transaction(
            self,
            pool_id,
            who,
            target_chain,
            call_data,
            transaction_id,
            now,
        ) {
            Ok(_) => {},
            Err(_) => {
                proof {
                    assert(false);
                }
                return Err(Error::ChainNotSupported);
            },
        }
        self.events.push(
            Event::TransactionSponsored {
                transaction_id,
                pool_id,
                user: who,
                target_chain,
                gas_cost: estimated_gas_cost,
            },
        );
        proof {
            assert(self.tracker.log@.subrange(0, old(self).tracker.log@.len() as int) =~= old(
                self,
            ).tracker.log@);
        }
        Ok(transaction_id)
    }

    /// Process a transaction receipt arriving from the transport.
    ///
    /// Settlement is delegated to the receipt processor; an invalid
    /// receipt is reported as an error, while a duplicate one is accepted
    /// as a no-op.
    pub fn process_receipt(
        &mut self,
        receipt: crate::receipt::TransactionReceipt,
        now: BlockNumber,
    ) -> (r: Result<(), Error>)
        requires
            old(self).wf(),
        ensures
            final(self).wf(),
            match r {
                Ok(_) => {
                    let res = crate::receipt::receipt_outcome(*old(self), receipt);
                    &&& (res == crate::receipt::ReceiptProcessingResult::Processed || res
                        == crate::receipt::ReceiptProcessingResult::AlreadyProcessed)
                    &&& (res == crate::receipt::ReceiptProcessingResult::Processed
                        ==> crate::receipt::receipt_effects(*old(self), *final(self), receipt, now))
                    &&& (res == crate::receipt::ReceiptProcessingResult::AlreadyProcessed
                        ==> same_state(*old(self), *final(self)))
                },
                Err(e) => {
                    &&& same_state(*old(self), *final(self))
                    &&& e == Error::InvalidConfiguration
                    &&& crate::receipt::receipt_outcome(*old(self), receipt)
                        == crate::receipt::ReceiptProcessingResult::InvalidReceipt
                },
            },
    {
        match crate::receipt::ReceiptProcessor::process_receipt(self, receipt, now) {
            Ok(crate::receipt::ReceiptProcessingResult::Processed) => Ok(()),
            Ok(crate::receipt::ReceiptProcessingResult::AlreadyProcessed) => Ok(()),
            Ok(crate::receipt::ReceiptProcessingResult::InvalidReceipt) => Err(
                Error::InvalidConfiguration,
            ),
            Ok(crate::receipt::ReceiptProcessingResult::PoolUpdateFailed) => Err(
                Error::InsufficientFunds,
            ),
            Err(_) => Err(Error::InvalidConfiguration),
        }
    }

    /// All pools of an owner, with their ids, in id order.
    pub fn get_pools_by_owner_account(&self, owner: AccountId) -> (r: Vec<(PoolId, PoolInfo)>)
        requires
            self.wf(),
        ensures
            r@.len() == owned_pools_upto(self.pools@, owner, self.pools@.len() as int).len(),
            forall|i: int|
                0 <= i < r@.len() ==> {
                    let expected = owned_pools_upto(self.pools@, owner, self.pools@.len() as int);
                    (#[trigger] r@[i]).0 == expected[i].0 && pool_eq(r@[i].1, expected[i].1)
                },
    {
        let mut result: Vec<(PoolId, PoolInfo)> = Vec::new();
        let mut i: usize = 0;
        while i < self.pools.len()
            invariant
                self.wf(),
                i <= self.pools@.len(),
                result@.len() == owned_pools_upto(self.pools@, owner, i as int).len(),
                forall|j: int|
                    0 <= j < result@.len() ==> {
                        let expected = owned_pools_upto(self.pools@, owner, i as int);
                        (#[trigger] result@[j]).0 == expected[j].0 && pool_eq(
                            result@[j].1,
                            expected[j].1,
                        )
                    },
            decreases self.pools@.len() - i,
        {
            if self.pools[i].owner == owner {
                result.push((i as u32, copy_pool_info(&self.pools[i])));
            }
            i = i + 1;
        }
        result
    }

    /// The first `limit` logged transactions of a pool, oldest first.
    pub fn get_pool_transaction_history(&self, pool_id: PoolId, limit: u32) -> (r: Vec<
        TransactionRecord,
    >)
        ensures
            r@.len() == history_upto(
                self.tracker.log@,
                pool_id,
                limit,
                self.tracker.log@.len() as int,
            ).len(),
            forall|i: int|
                0 <= i < r@.len() ==> record_eq(
                    #[trigger] r@[i],
                    history_upto(self.tracker.log@, pool_id, limit, self.tracker.log@.len() as int)[i],
                ),
    {
        let mut result: Vec<TransactionRecord> = Vec::new();
        let mut count: u32 = 0;
        let mut i: usize = 0;
        while i < self.tracker.log.len()
            invariant
                i <= self.tracker.log@.len(),
                count == result@.len(),
                result@.len() == history_upto(self.tracker.log@, pool_id, limit, i as int).len(),
                result@.len() <= limit,
                forall|j: int|
                    0 <= j < result@.len() ==> record_eq(
                        #[trigger] result@[j],
                        history_upto(self.tracker.log@, pool_id, limit, i as int)[j],
                    ),
            decreases self.tracker.log@.len() - i,
        {
            if self.tracker.log[i].pool_id == pool_id && count < limit {
                result.push(copy_record(&self.tracker.log[i]));
                count = count + 1;
            }
            i = i + 1;
        }
        result
    }

    /// The cumulative fees paid on behalf of a user across all executed
    /// sponsored calls.
    pub fn get_user_total_gas_savings(&self, user: AccountId) -> (r: Balance)
        ensures
            r == savings_upto(self.tracker.log@, user, self.tracker.log@.len() as int),
    {
        let mut total: u128 = 0;
        let mut i: usize = 0;
        while i < self.tracker.log.len()
            invariant
                i <= self.tracker.log@.len(),
                total == savings_upto(self.tracker.log@, user, i as int),
            decreases self.tracker.log@.len() - i,
        {
            let rec = &self.tracker.log[i];
            if rec.user == user && status_is_executed(rec.status) {
                total = total.saturating_add(rec.gas_cost);
            }
            i = i + 1;
        }
        total
    }

    /// Estimate the fee of a sponsored call: the canonical estimate for a
    /// supported destination, a coarser size-based figure otherwise.
    pub fn estimate_transaction_gas_cost(target_chain: u32, call_data: &[u8]) -> (r: Balance)
        ensures
            r == if chain_supported(target_chain) {
                estimate_of(target_chain, call_data@)
            } else {
                fallback_fee_of(call_data@.len() as int)
            },
    {
        match FeeEstimator::estimate_fee(target_chain, call_data) {
            Ok(fee) => fee,
            Err(_) => {
                let size: u128 = call_data.len() as u128;
                FALLBACK_BASE_FEE + FALLBACK_PER_BYTE_FEE * size
            },
        }
    }
}

/// Run-time test for the `Executed` status.
fn status_is_executed(status: TransactionStatus) -> (r: bool)
    ensures
        r == (status == TransactionStatus::Executed),
{
    match status {
        TransactionStatus::Executed => true,
        _ => false,
    }
}

/// The pools of an owner among the first `n`, with their ids, in id order.
pub open spec fn owned_pools_upto(pools: Seq<PoolInfo>, owner: AccountId, n: int) -> Seq<
    (PoolId, PoolInfo),
>
    decreases n,
{
    if n <= 0 {
        Seq::empty()
    } else {
        let prefix = owned_pools_upto(pools, owner, n - 1);
        if pools[n - 1].owner == owner {
            prefix.push(((n - 1) as PoolId, pools[n - 1]))
        } else {
            prefix
        }
    }
}

/// The first at-most-`limit` records of a pool among the first `n` log
/// entries, oldest first.
pub open spec fn history_upto(
    log: Seq<TransactionRecord>,
    pool_id: PoolId,
    limit: u32,
    n: int,
) -> Seq<TransactionRecord>
    decreases n,
{
    if n <= 0 {
        Seq::empty()
    } else {
        let prefix = history_upto(log, pool_id, limit, n - 1);
        if log[n - 1].pool_id == pool_id && prefix.len() < limit {
            prefix.push(log[n - 1])
        } else {
            prefix
        }
    }
}

/// The saturating sum of the fees of a user's executed transactions among
/// the first `n` log entries.
pub open spec fn savings_upto(log: Seq<TransactionRecord>, user: AccountId, n: int) -> u128
    decreases n,
{
    if n <= 0 {
        0
    } else {
        let prefix = savings_upto(log, user, n - 1);
        if log[n - 1].user == user && log[n - 1].status == TransactionStatus::Executed {
            sat_add_u128(prefix, log[n - 1].gas_cost)
        } else {
            prefix
        }
    }
}

/// The first reason to refuse funding a pool, if any.

/// Field-wise description of a transaction record.
pub open spec fn record_matches(
    rec: TransactionRecord,
    id: u64,
    pool_id: PoolId,
    user: AccountId,
    target_chain: u32,
    call_hash: Seq<u8>,
    gas_cost: Balance,
    status: TransactionStatus,
    timestamp: BlockNumber,
) -> bool {
    &&& rec.id == id
    &&& rec.pool_id == pool_id
    &&& rec.user == user
    &&& rec.target_chain == target_chain
    &&& rec.call_hash@ == call_hash
    &&& rec.gas_cost == gas_cost
    &&& rec.status == status
    &&& rec.timestamp == timestamp
}

/// Spending counters with the daily window settled at run time.
pub fn settle_window(s: SpendingInfo, now: BlockNumber) -> (r: SpendingInfo)
    ensures
        r == reset_if_due(s, now),
{
    let elapsed = if now >= s.last_reset {
        now - s.last_reset
    } else {
        0
    };
    if elapsed >= DAILY_WINDOW_BLOCKS {
        SpendingInfo { total_spent: s.total_spent, daily_spent: 0, last_reset: now }
    } else {
        s
    }
}

/// The first reason to refuse sponsoring a call, if any, in the order the
/// checks run: pool existence and status, the pool's own destination list,
/// the fee table, the authorization rules, the balance, and finally the
/// payload bounds of the outbound message.
pub open spec fn sponsor_denial(
    s: Pallet,
    pool_id: PoolId,
    who: AccountId,
    target_chain: u32,
    call_data: Seq<u8>,
    now: BlockNumber,
) -> Option<Error> {
    if !s.has_pool(pool_id) {
        Some(Error::PoolNotFound)
    } else if s.pool_at(pool_id).status == PoolStatus::Paused {
        Some(Error::PoolPaused)
    } else if s.pool_at(pool_id).status == PoolStatus::Closed {
        Some(Error::PoolClosed)
    } else if !s.pool_at(pool_id).config.allows_chain(target_chain) {
        Some(Error::ChainNotSupported)
    } else if !chain_supported(target_chain) {
        Some(Error::ChainNotSupported)
    } else {
        let fee = estimate_of(target_chain, call_data) as u128;
        let verdict = authorize_spec(
            s.pool_at(pool_id).config,
            s.auths@[pool_id as int],
            reset_if_due(s.user_spending_spec(pool_id, who), now),
            who,
            call_data,
            fee,
        );
        if verdict is Some {
            verdict
        } else if s.pool_at(pool_id).balance < fee {
            Some(Error::InsufficientFunds)
        } else if call_data.len() == 0 || call_data.len() > MAX_CALL_DATA {
            Some(Error::ChainNotSupported)
        } else {
            None
        }
    }
}

/// The state transition of a successful sponsorship: the audit record and
/// the pending entry exist under the new transaction id, the estimated fee
/// moved from the pool's balance into its committed total, the spender's
/// counters rose by the fee, and the event was emitted.
pub open spec fn sponsor_effects(
    s0: Pallet,
    s1: Pallet,
    pool_id: PoolId,
    who: AccountId,
    target_chain: u32,
    call_data: Seq<u8>,
    now: BlockNumber,
    tx_id: u64,
) -> bool {
    let fee = estimate_of(target_chain, call_data) as u128;
    &&& tx_id == s0.tracker.log@.len()
    &&& s1.pools@ == s0.pools@.update(pool_id as int, pool_reserved(s0.pool_at(pool_id), fee))
    &&& s1.auths@ == s0.auths@
    &&& s1.funded@ == s0.funded@
    &&& s1.tracker.log@.len() == s0.tracker.log@.len() + 1
    &&& s1.tracker.log@.subrange(0, s0.tracker.log@.len() as int) == s0.tracker.log@
    &&& record_matches(
        s1.tracker.log@.last(),
        tx_id,
        pool_id,
        who,
        target_chain,
        call_hash_of(call_data),
        fee,
        TransactionStatus::Dispatched,
        now,
    )
    &&& s1.tracker.pending@ == s0.tracker.pending@.push(s1.tracker.pending@.last())
    &&& pending_entry_matches(
        s1.tracker.pending@.last(),
        tx_id,
        pool_id,
        who,
        target_chain,
        call_hash_of(call_data),
        fee,
        now,
    )
    &&& s1.user_spending_spec(pool_id, who) == spend_applied(
        s0.user_spending_spec(pool_id, who),
        fee,
        now,
    )
    &&& forall|p: PoolId, u: AccountId|
        !(p == pool_id && u == who) ==> #[trigger] table_lookup(s1.spending@, p, u)
            == table_lookup(s0.spending@, p, u)
    &&& s1.events@ == s0.events@.push(
        Event::TransactionSponsored {
            transaction_id: tx_id,
            pool_id,
            user: who,
            target_chain,
            gas_cost: fee,
        },
    )
}

/// Value conservation: in a well-formed ledger, every pool's available
/// balance plus its committed total never exceeds the cumulative funding it
/// received. Every ledger operation keeps the ledger well-formed, so this
/// holds in every reachable state.
pub proof fn lemma_value_conservation(s: Pallet, pool_id: PoolId)
    requires
        s.wf(),
        s.has_pool(pool_id),
    ensures
        s.pool_at(pool_id).balance + s.pool_at(pool_id).total_spent <= s.funded@[pool_id as int],
{
}

/// A sponsorship is granted only against sufficient balance: when no denial
/// stands, the pool's balance covers the estimated fee, so a reservation
/// never drives the balance below zero.
pub proof fn lemma_reserve_requires_funds(
    s: Pallet,
    pool_id: PoolId,
    who: AccountId,
    target_chain: u32,
    call_data: Seq<u8>,
    now: BlockNumber,
)
    requires
        sponsor_denial(s, pool_id, who, target_chain, call_data, now) is None,
    ensures
        s.pool_at(pool_id).balance >= estimate_of(target_chain, call_data),
{
}

/// No two reservations can jointly overdraw a pool: when a second
/// reservation still finds sufficient balance after a first one, the
/// starting balance covered both, and the remaining balance is exactly the
/// start minus both fees. With every ledger operation atomic, no
/// interleaving can grant two reservations a balance that covers only one.
pub proof fn lemma_no_joint_overdraw(p: PoolInfo, fee1: Balance, fee2: Balance)
    requires
        p.balance >= fee1,
        pool_reserved(p, fee1).balance >= fee2,
    ensures
        p.balance >= fee1 + fee2,
        pool_reserved(pool_reserved(p, fee1), fee2).balance == p.balance - fee1 - fee2,
{
}

/// A sponsorship reserves exactly the canonical estimate: the fee recorded
/// for the new transaction equals the fee estimator's figure for the same
/// destination and payload.
pub proof fn lemma_sponsor_reserves_estimate(
    s0: Pallet,
    s1: Pallet,
    pool_id: PoolId,
    who: AccountId,
    target_chain: u32,
    call_data: Seq<u8>,
    now: BlockNumber,
    tx_id: u64,
)
    requires
        s0.has_pool(pool_id),
        sponsor_effects(s0, s1, pool_id, who, target_chain, call_data, now, tx_id),
    ensures
        s1.tracker.log@.last().gas_cost == estimate_of(target_chain, call_data) as u128,
        s1.pools@[pool_id as int].balance == pool_reserved(
            s0.pool_at(pool_id),
            estimate_of(target_chain, call_data) as u128,
        ).balance,
{
}

/// The first reason to refuse funding a pool, if any.
pub open spec fn fund_pool_denial(s: Pallet, pool_id: PoolId, who: AccountId) -> Option<Error> {
    if !s.has_pool(pool_id) {
        Some(Error::PoolNotFound)
    } else if s.pool_at(pool_id).owner != who {
        Some(Error::NotPoolOwner)
    } else if s.pool_at(pool_id).status == PoolStatus::Paused {
        Some(Error::PoolPaused)
    } else if s.pool_at(pool_id).status == PoolStatus::Closed {
        Some(Error::PoolClosed)
    } else {
        None
    }
}

} // verus!
