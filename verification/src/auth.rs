//! The authorization engine: evaluates a pool's rule set against a
//! prospective sponsored call.
//!
//! A pool holds at most one rule per rule type. When the pool requires
//! authorization, the configured rules are evaluated in a fixed order —
//! user whitelist, spending limit, transaction type — and the first denial
//! decides; absence of any applicable rule is an allowance. When the pool
//! does not require authorization every call is allowed.
//!
//! Rule payloads are opaque bounded byte strings; this engine reads them as
//! follows. A whitelist lists one account per byte. A spending-limit payload
//! carries the per-user cap in its first eight bytes, little endian,
//! zero-extended when shorter. A transaction-type payload lists the accepted
//! call categories, one per byte, where a call's category is the first byte
//! of its payload.

use vstd::prelude::*;
use crate::types::{AccountId, AuthorizationRule, AuthorizationType, Balance, Error, PoolConfig, SpendingInfo};

verus! {

/// The rule set of one pool: at most one rule per type.
#[derive(Clone, Debug, PartialEq, Eq)]
pub struct PoolAuthorizations {
    pub user_whitelist: Option<AuthorizationRule>,
    pub transaction_type: Option<AuthorizationRule>,
    pub spending_limit: Option<AuthorizationRule>,
}

impl PoolAuthorizations {
    /// Each slot, when filled, holds a bounded rule of its own type.
    pub open spec fn wf(self) -> bool {
        &&& match self.user_whitelist {
            Some(r) => r.wf() && r.rule_type == AuthorizationType::UserWhitelist,
            None => true,
        }
        &&& match self.transaction_type {
            Some(r) => r.wf() && r.rule_type == AuthorizationType::TransactionType,
            None => true,
        }
        &&& match self.spending_limit {
            Some(r) => r.wf() && r.rule_type == AuthorizationType::SpendingLimit,
            None => true,
        }
    }

    /// The rule of the given type, if configured.
    pub open spec fn rule_of(self, rule_type: AuthorizationType) -> Option<AuthorizationRule> {
        match rule_type {
            AuthorizationType::UserWhitelist => self.user_whitelist,
            AuthorizationType::TransactionType => self.transaction_type,
            AuthorizationType::SpendingLimit => self.spending_limit,
        }
    }

    /// The rule set with the slot of the given type replaced.
    pub open spec fn with_rule(self, rule_type: AuthorizationType, rule: Option<AuthorizationRule>) -> Self {
        match rule_type {
            AuthorizationType::UserWhitelist => PoolAuthorizations { user_whitelist: rule, ..self },
            AuthorizationType::TransactionType => PoolAuthorizations {
                transaction_type: rule,
                ..self
            },
            AuthorizationType::SpendingLimit => PoolAuthorizations { spending_limit: rule, ..self },
        }
    }

    /// An empty rule set.
    pub fn empty() -> (r: Self)
        ensures
            r.wf(),
            r.user_whitelist is None,
            r.transaction_type is None,
            r.spending_limit is None,
    {
        PoolAuthorizations { user_whitelist: None, transaction_type: None, spending_limit: None }
    }
}

/// Whether the whitelist payload lists the spender: one account per byte.
pub open spec fn whitelist_allows(data: Seq<u8>, spender: AccountId) -> bool {
    exists|i: int| 0 <= i < data.len() && data[i] as u64 == spender
}

/// Whether the transaction-type payload accepts the call: the call's
/// category is the first byte of its payload, and must be listed.
pub open spec fn tx_type_allows(data: Seq<u8>, payload: Seq<u8>) -> bool {
    payload.len() > 0 && exists|i: int| 0 <= i < data.len() && data[i] == payload[0]
}

/// The byte at a position, zero when past the end.
pub open spec fn byte_at(data: Seq<u8>, i: int) -> int {
    if 0 <= i < data.len() {
        data[i] as int
    } else {
        0
    }
}

/// The per-user spending cap carried by a spending-limit payload: its first
/// eight bytes, little endian, zero-extended when shorter.
pub open spec fn spending_cap_of(data: Seq<u8>) -> int {
    byte_at(data, 0) + byte_at(data, 1) * 0x100 + byte_at(data, 2) * 0x1_0000 + byte_at(data, 3)
        * 0x100_0000 + byte_at(data, 4) * 0x1_0000_0000 + byte_at(data, 5) * 0x100_0000_0000
        + byte_at(data, 6) * 0x1_0000_0000_0000 + byte_at(data, 7) * 0x100_0000_0000_0000
}

/// Whether a spending-limit rule denies the call: the call alone, the
/// running daily total or the running per-user total would pass a cap.
pub open spec fn spending_limit_denies(
    config: PoolConfig,
    cap_data: Seq<u8>,
    spending: SpendingInfo,
    fee: Balance,
) -> bool {
    ||| fee > config.max_transaction_value
    ||| spending.daily_spent + fee > config.daily_spending_limit
    ||| spending.total_spent + fee > spending_cap_of(cap_data)
}

/// The verdict of the engine: `None` allows, `Some` carries the denial.
pub open spec fn authorize_spec(
    config: PoolConfig,
    auths: PoolAuthorizations,
    spending: SpendingInfo,
    spender: AccountId,
    payload: Seq<u8>,
    fee: Balance,
) -> Option<Error> {
    if !config.authorization_required {
        None
    } else if match auths.user_whitelist {
        Some(r) => !whitelist_allows(r.data@, spender),
        None => false,
    } {
        Some(Error::UnauthorizedUser)
    } else if match auths.spending_limit {
        Some(r) => spending_limit_denies(config, r.data@, spending, fee),
        None => false,
    } {
        Some(Error::ExceedsSpendingLimit)
    } else if match auths.transaction_type {
        Some(r) => !tx_type_allows(r.data@, payload),
        None => false,
    } {
        Some(Error::UnauthorizedUser)
    } else {
        None
    }
}

/// Evaluates a pool's rule set against a prospective sponsored call.
pub struct AuthorizationEngine;

impl AuthorizationEngine {
    /// Evaluate the rules of a pool against one call. `spending` are the
    /// spender's counters with the daily window already settled; `fee` is
    /// the estimated cost of the call.
    pub fn authorize(
        config: &PoolConfig,
        auths: &PoolAuthorizations,
        spending: &SpendingInfo,
        spender: AccountId,
        payload: &[u8],
        fee: Balance,
    ) -> (r: Option<Error>)
        ensures
            r == authorize_spec(*config, *auths, *spending, spender, payload@, fee),
    {
        if !config.authorization_required {
            return None;
        }
        match &auths.user_whitelist {
            Some(rule) => {
                if !contains_account(&rule.data, spender) {
                    return Some(Error::UnauthorizedUser);
                }
            },
            None => {},
        }
        match &auths.spending_limit {
            Some(rule) => {
                if fee > config.max_transaction_value {
                    return Some(Error::ExceedsSpendingLimit);
                }
                if fee > config.daily_spending_limit || spending.daily_spent
                    > config.daily_spending_limit - fee {
                    return Some(Error::ExceedsSpendingLimit);
                }
                let cap = read_spending_cap(&rule.data);
                if fee > cap || spending.total_spent > cap - fee {
                    return Some(Error::ExceedsSpendingLimit);
                }
            },
            None => {},
        }
        match &auths.transaction_type {
            Some(rule) => {
                if payload.len() == 0 {
                    return Some(Error::UnauthorizedUser);
                }
                if !contains_byte(&rule.data, payload[0]) {
                    return Some(Error::UnauthorizedUser);
                }
            },
            None => {},
        }
        None
    }
}

/// Linear search of a whitelist payload for an account.
fn contains_account(data: &Vec<u8>, spender: AccountId) -> (r: bool)
    ensures
        r == whitelist_allows(data@, spender),
{
    if spender > 255 {
        return false;
    }
    let target = spender as u8;
    let mut i: usize = 0;
    while i < data.len()
        invariant
            i <= data@.len(),
            spender <= 255,
            target == spender as u8,
            forall|j: int| 0 <= j < i ==> data@[j] as u64 != spender,
        decreases data@.len() - i,
    {
        if data[i] == target {
            return true;
        }
        i = i + 1;
    }
    false
}

/// Linear search of a payload for a byte.
fn contains_byte(data: &Vec<u8>, b: u8) -> (r: bool)
    ensures
        r == exists|i: int| 0 <= i < data@.len() && data@[i] == b,
{
    let mut i: usize = 0;
    while i < data.len()
        invariant
            i <= data@.len(),
            forall|j: int| 0 <= j < i ==> data@[j] != b,
        decreases data@.len() - i,
    {
        if data[i] == b {
            return true;
        }
        i = i + 1;
    }
    false
}

/// Read the per-user cap from a spending-limit payload: first eight bytes,
/// little endian.
fn read_spending_cap(data: &Vec<u8>) -> (r: Balance)
    ensures
        r == spending_cap_of(data@),
{
    let mut cap: u64 = 0;
    if data.len() > 0 {
        cap = data[0] as u64;
    }
    if data.len() > 1 {
        cap = cap + (data[1] as u64) * 0x100;
    }
    if data.len() > 2 {
        cap = cap + (data[2] as u64) * 0x1_0000;
    }
    if data.len() > 3 {
        cap = cap + (data[3] as u64) * 0x100_0000;
    }
    if data.len() > 4 {
        cap = cap + (data[4] as u64) * 0x1_0000_0000;
    }
    if data.len() > 5 {
        cap = cap + (data[5] as u64) * 0x100_0000_0000;
    }
    if data.len() > 6 {
        cap = cap + (data[6] as u64) * 0x1_0000_0000_0000;
    }
    if data.len() > 7 {
        cap = cap + (data[7] as u64) * 0x100_0000_0000_0000;
    }
    cap as u128
}

} // verus!
