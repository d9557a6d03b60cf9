//! The read-only query interface over a ledger: what front ends serve to
//! their callers. Queries never mutate state.

use vstd::prelude::*;
use crate::fees::{chain_supported, estimate_of, fallback_fee_of};
use crate::ledger::{history_upto, owned_pools_upto, savings_upto, Pallet};
use crate::types::{
    pool_eq, record_eq, AccountId, Balance, PoolId, PoolInfo, TransactionRecord,
};

verus! {

/// How many records a history query returns when the caller names no limit.
pub const DEFAULT_HISTORY_LIMIT: u32 = 50;

/// Serves read-only sponsorship queries over a ledger.
pub struct SponsorshipRpc {
    pub client: Pallet,
}

impl SponsorshipRpc {
    /// Wrap a ledger for read-only queries.
    pub fn new(client: Pallet) -> (r: Self)
        ensures
            r.client == client,
    {
        SponsorshipRpc { client }
    }

    /// Pool lookup by id.
    pub fn get_pool(&self, pool_id: PoolId) -> (r: Option<&PoolInfo>)
        ensures
            match r {
                Some(p) => self.client.has_pool(pool_id) && *p == self.client.pool_at(pool_id),
                None => !self.client.has_pool(pool_id),
            },
    {
        self.client.get_pool_info(pool_id)
    }

    /// All pools of an owner, with their ids, in id order.
    pub fn get_pools_by_owner(&self, owner: AccountId) -> (r: Vec<(PoolId, PoolInfo)>)
        requires
            self.client.wf(),
        ensures
            r@.len() == owned_pools_upto(
                self.client.pools@,
                owner,
                self.client.pools@.len() as int,
            ).len(),
            forall|i: int|
                0 <= i < r@.len() ==> {
                    let expected = owned_pools_upto(
                        self.client.pools@,
                        owner,
                        self.client.pools@.len() as int,
                    );
                    (#[trigger] r@[i]).0 == expected[i].0 && pool_eq(r@[i].1, expected[i].1)
                },
    {
        self.client.get_pools_by_owner_account(owner)
    }

    /// The oldest transactions of a pool, up to the limit, or up to a
    /// default when the caller names none.
    pub fn get_transaction_history(&self, pool_id: PoolId, limit: Option<u32>) -> (r: Vec<
        TransactionRecord,
    >)
        ensures
            ({
                let n = match limit {
                    Some(n) => n,
                    None => DEFAULT_HISTORY_LIMIT,
                };
                &&& r@.len() == history_upto(
                    self.client.tracker.log@,
                    pool_id,
                    n,
                    self.client.tracker.log@.len() as int,
                ).len()
                &&& forall|i: int|
                    0 <= i < r@.len() ==> record_eq(
                        #[trigger] r@[i],
                        history_upto(
                            self.client.tracker.log@,
                            pool_id,
                            n,
                            self.client.tracker.log@.len() as int,
                        )[i],
                    )
            }),
    {
        let n = match limit {
            Some(n) => n,
            None => DEFAULT_HISTORY_LIMIT,
        };
        self.client.get_pool_transaction_history(pool_id, n)
    }

    /// The cumulative fees paid on behalf of a user across all executed
    /// sponsored calls.
    pub fn get_user_gas_savings(&self, user: AccountId) -> (r: Balance)
        ensures
            r == savings_upto(
                self.client.tracker.log@,
                user,
                self.client.tracker.log@.len() as int,
            ),
    {
        self.client.get_user_total_gas_savings(user)
    }

    /// Estimate the fee of a sponsored call; stable across repeated
    /// queries, being a function of the destination and payload alone.
    pub fn estimate_gas_cost(&self, target_chain: u32, call_data: &[u8]) -> (r: Balance)
        ensures
            r == if chain_supported(target_chain) {
                estimate_of(target_chain, call_data@)
            } else {
                fallback_fee_of(call_data@.len() as int)
            },
    {
        Pallet::estimate_transaction_gas_cost(target_chain, call_data)
    }
}

} // verus!
