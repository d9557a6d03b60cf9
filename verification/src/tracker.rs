//! The pending-transaction index and the append-only transaction log.
//!
//! One pending entry exists per in-flight sponsored call, keyed by
//! transaction id, between dispatch and terminal settlement. The log keeps
//! one immutable audit record per sponsored call attempt; only a record's
//! status advances, and a terminal status is never left again.

use vstd::prelude::*;
use crate::hashing::{blake2b_256, call_hash_of};
use crate::message::XcmGatewayError;
use crate::retry::{is_ready_spec, MAX_RETRIES};
use crate::types::{
    is_terminal, status_is_terminal, AccountId, Balance, BlockNumber, PoolId, TransactionRecord,
    TransactionStatus,
};

verus! {

/// Mutable in-flight tracking entry of one sponsored call.
#[derive(Clone, Debug, PartialEq, Eq)]
pub struct PendingTransaction {
    pub transaction_id: u64,
    pub pool_id: PoolId,
    pub user: AccountId,
    pub target_chain: u32,
    pub call_hash: Vec<u8>,
    pub reserved_fee: Balance,
    pub retry_count: u8,
    pub created_at: BlockNumber,
    pub last_retry_at: BlockNumber,
}

/// A record with its status replaced.
pub open spec fn with_status(rec: TransactionRecord, status: TransactionStatus) -> TransactionRecord {
    TransactionRecord { status, ..rec }
}

/// Whether a pending entry is due for the periodic sweep: stale by age and
/// ready by backoff.
pub open spec fn retry_candidate(entry: PendingTransaction, now: BlockNumber, max_age: BlockNumber) -> bool {
    &&& (if now >= entry.created_at {
        now - entry.created_at
    } else {
        0
    }) >= max_age
    &&& is_ready_spec(entry.last_retry_at, entry.retry_count, now)
}

/// The candidate ids among the first `n` pending entries, in index order.
pub open spec fn candidates_upto(
    pending: Seq<PendingTransaction>,
    now: BlockNumber,
    max_age: BlockNumber,
    n: int,
) -> Seq<u64>
    decreases n,
{
    if n <= 0 {
        Seq::empty()
    } else {
        let prefix = candidates_upto(pending, now, max_age, n - 1);
        if retry_candidate(pending[n - 1], now, max_age) {
            prefix.push(pending[n - 1].transaction_id)
        } else {
            prefix
        }
    }
}

/// The candidate list is complete: every pending entry that is a sweep
/// candidate has its id in the list.
pub proof fn lemma_candidates_complete(
    pending: Seq<PendingTransaction>,
    now: BlockNumber,
    max_age: BlockNumber,
    n: int,
    j: int,
)
    requires
        0 <= j < n <= pending.len(),
        retry_candidate(pending[j], now, max_age),
    ensures
        exists|k: int|
            0 <= k < candidates_upto(pending, now, max_age, n).len() && candidates_upto(
                pending,
                now,
                max_age,
                n,
            )[k] == pending[j].transaction_id,
    decreases n,
{
    let cs = candidates_upto(pending, now, max_age, n);
    let prefix = candidates_upto(pending, now, max_age, n - 1);
    if j == n - 1 {
        assert(cs == prefix.push(pending[j].transaction_id));
        assert(cs[prefix.len() as int] == pending[j].transaction_id);
    } else {
        lemma_candidates_complete(pending, now, max_age, n - 1, j);
        let k = choose|k: int|
            0 <= k < prefix.len() && prefix[k] == pending[j].transaction_id;
        assert(cs[k] == pending[j].transaction_id);
    }
}

/// Owner of the pending index and of the transaction log.
pub struct TransactionTracker {
    pub log: Vec<TransactionRecord>,
    pub pending: Vec<PendingTransaction>,
}

impl TransactionTracker {
    /// Well-formedness: record ids equal their log position, pending ids are
    /// unique, and no retry count exceeds the budget.
    pub open spec fn wf(self) -> bool {
        &&& forall|i: int|
            0 <= i < self.log@.len() ==> (#[trigger] self.log@[i]).id == i as u64
        &&& forall|i: int, j: int|
            0 <= i < j < self.pending@.len() ==> (#[trigger] self.pending@[i]).transaction_id != (
            #[trigger] self.pending@[j]).transaction_id
        &&& forall|i: int|
            0 <= i < self.pending@.len() ==> (#[trigger] self.pending@[i]).retry_count
                <= MAX_RETRIES
    }

    /// Whether some pending entry carries the transaction id.
    pub open spec fn has_pending(self, transaction_id: u64) -> bool {
        exists|i: int|
            0 <= i < self.pending@.len() && (#[trigger] self.pending@[i]).transaction_id
                == transaction_id
    }

    /// The index of the pending entry with the transaction id; with unique
    /// ids, the only one.
    pub open spec fn pending_index(self, transaction_id: u64) -> int {
        choose|i: int|
            0 <= i < self.pending@.len() && (#[trigger] self.pending@[i]).transaction_id
                == transaction_id
    }

    /// The pending entry with the transaction id.
    pub open spec fn pending_entry(self, transaction_id: u64) -> PendingTransaction {
        self.pending@[self.pending_index(transaction_id)]
    }

    /// Whether the log holds a record for the transaction id.
    pub open spec fn has_record(self, transaction_id: u64) -> bool {
        transaction_id < self.log@.len()
    }

    /// The record of the transaction id.
    pub open spec fn record_at(self, transaction_id: u64) -> TransactionRecord {
        self.log@[transaction_id as int]
    }

    /// An empty tracker: no records, nothing in flight.
    pub fn new() -> (r: Self)
        ensures
            r.wf(),
            r.log@.len() == 0,
            r.pending@.len() == 0,
    {
        TransactionTracker { log: Vec::new(), pending: Vec::new() }
    }

    /// Append a fresh audit record with status `Pending`, returning its id:
    /// the next position of the log.
    pub fn append_record(
        &mut self,
        pool_id: PoolId,
        user: AccountId,
        target_chain: u32,
        call_hash: Vec<u8>,
        gas_cost: Balance,
        now: BlockNumber,
    ) -> (id: u64)
        requires
            old(self).wf(),
        ensures
            final(self).wf(),
            id == old(self).log@.len(),
            final(self).log@ == old(self).log@.push(
                TransactionRecord {
                    id,
                    pool_id,
                    user,
                    target_chain,
                    call_hash,
                    gas_cost,
                    status: TransactionStatus::Pending,
                    timestamp: now,
                },
            ),
            final(self).pending@ == old(self).pending@,
    {
        let id = self.log.len() as u64;
        let record = TransactionRecord {
            id,
            pool_id,
            user,
            target_chain,
            call_hash,
            gas_cost,
            status: TransactionStatus::Pending,
            timestamp: now,
        };
        self.log.push(record);
        id
    }

    /// Linear search of the pending index for a transaction id.
    pub fn find_pending(&self, transaction_id: u64) -> (r: Option<usize>)
        requires
            self.wf(),
        ensures
            match r {
                Some(i) => {
                    &&& self.has_pending(transaction_id)
                    &&& i as int == self.pending_index(transaction_id)
                    &&& i < self.pending@.len()
                    &&& self.pending@[i as int].transaction_id == transaction_id
                },
                None => !self.has_pending(transaction_id),
            },
    {
        let mut i: usize = 0;
        while i < self.pending.len()
            invariant
                self.wf(),
                i <= self.pending@.len(),
                forall|j: int| 0 <= j < i ==> self.pending@[j].transaction_id != transaction_id,
            decreases self.pending@.len() - i,
        {
            if self.pending[i].transaction_id == transaction_id {
                proof {
                    assert(self.pending@[i as int].transaction_id == transaction_id);
                    let k = self.pending_index(transaction_id);
                    if k != i as int {
                        assert(self.pending@[k].transaction_id == transaction_id);
                        assert(false);
                    }
                }
                return Some(i);
            }
            i = i + 1;
        }
        None
    }

    /// Transition the status of a logged transaction.
    ///
    /// Idempotent: an unknown id or an already-terminal record is a no-op,
    /// never an error, because receipts may be delivered more than once.
    /// Entering a terminal status removes the pending entry, if any.
    pub fn update_transaction_status(
        &mut self,
        transaction_id: u64,
        new_status: TransactionStatus,
    ) -> (r: Result<(), XcmGatewayError>)
        requires
            old(self).wf(),
        ensures
            final(self).wf(),
            r == Ok::<(), XcmGatewayError>(()),
            if old(self).has_record(transaction_id) && !is_terminal(
                old(self).record_at(transaction_id).status,
            ) {
                &&& final(self).log@ == old(self).log@.update(
                    transaction_id as int,
                    with_status(old(self).record_at(transaction_id), new_status),
                )
                &&& final(self).pending@ == if is_terminal(new_status) && old(self).has_pending(
                    transaction_id,
                ) {
                    old(self).pending@.remove(old(self).pending_index(transaction_id))
                } else {
                    old(self).pending@
                }
            } else {
                &&& final(self).log@ == old(self).log@
                &&& final(self).pending@ == old(self).pending@
            },
    {
        if transaction_id >= self.log.len() as u64 {
            return Ok(());
        }
        let i = transaction_id as usize;
        if status_is_terminal(self.log[i].status) {
            return Ok(());
        }
        self.log[i].status = new_status;
        if status_is_terminal(new_status) {
            match self.find_pending(transaction_id) {
                Some(pi) => {
                    self.pending.remove(pi);
                },
                None => {},
            }
        }
        Ok(())
    }

    /// Mark a transaction as dispatched.
    pub fn mark_dispatched(&mut self, transaction_id: u64) -> (r: Result<(), XcmGatewayError>)
        requires
            old(self).wf(),
        ensures
            final(self).wf(),
            r == Ok::<(), XcmGatewayError>(()),
            if old(self).has_record(transaction_id) && !is_terminal(
                old(self).record_at(transaction_id).status,
            ) {
                &&& final(self).log@ == old(self).log@.update(
                    transaction_id as int,
                    with_status(old(self).record_at(transaction_id), TransactionStatus::Dispatched),
                )
                &&& final(self).pending@ == old(self).pending@
            } else {
                &&& final(self).log@ == old(self).log@
                &&& final(self).pending@ == old(self).pending@
            },
    {
        self.update_transaction_status(transaction_id, TransactionStatus::Dispatched)
    }

    /// Mark a transaction as executed; its pending entry, if any, leaves the
    /// index.
    pub fn mark_executed(&mut self, transaction_id: u64) -> (r: Result<(), XcmGatewayError>)
        requires
            old(self).wf(),
        ensures
            final(self).wf(),
            r == Ok::<(), XcmGatewayError>(()),
            if old(self).has_record(transaction_id) && !is_terminal(
                old(self).record_at(transaction_id).status,
            ) {
                &&& final(self).log@ == old(self).log@.update(
                    transaction_id as int,
                    with_status(old(self).record_at(transaction_id), TransactionStatus::Executed),
                )
                &&& final(self).pending@ == if old(self).has_pending(transaction_id) {
                    old(self).pending@.remove(old(self).pending_index(transaction_id))
                } else {
                    old(self).pending@
                }
            } else {
                &&& final(self).log@ == old(self).log@
                &&& final(self).pending@ == old(self).pending@
            },
    {
        self.update_transaction_status(transaction_id, TransactionStatus::Executed)
    }

    /// Mark a transaction as failed; its pending entry, if any, leaves the
    /// index.
    pub fn mark_failed(&mut self, transaction_id: u64) -> (r: Result<(), XcmGatewayError>)
        requires
            old(self).wf(),
        ensures
            final(self).wf(),
            r == Ok::<(), XcmGatewayError>(()),
            if old(self).has_record(transaction_id) && !is_terminal(
                old(self).record_at(transaction_id).status,
            ) {
                &&& final(self).log@ == old(self).log@.update(
                    transaction_id as int,
                    with_status(old(self).record_at(transaction_id), TransactionStatus::Failed),
                )
                &&& final(self).pending@ == if old(self).has_pending(transaction_id) {
                    old(self).pending@.remove(old(self).pending_index(transaction_id))
                } else {
                    old(self).pending@
                }
            } else {
                &&& final(self).log@ == old(self).log@
                &&& final(self).pending@ == old(self).pending@
            },
    {
        self.update_transaction_status(transaction_id, TransactionStatus::Failed)
    }

    /// Drop the pending entry of a transaction, if any, leaving its log
    /// record as it is.
    pub fn remove_pending(&mut self, transaction_id: u64)
        requires
            old(self).wf(),
        ensures
            final(self).wf(),
            final(self).log@ == old(self).log@,
            final(self).pending@ == if old(self).has_pending(transaction_id) {
                old(self).pending@.remove(old(self).pending_index(transaction_id))
            } else {
                old(self).pending@
            },
    {
        match self.find_pending(transaction_id) {
            Some(i) => {
                self.pending.remove(i);
            },
            None => {},
        }
    }

    /// Register a new in-flight sponsored call with retry count 0. An id
    /// that is already tracked is left as it is: registration is a no-op
    /// then, never an error.
    pub fn add_pending_transaction(
        &mut self,
        transaction_id: u64,
        pool_id: PoolId,
        user: AccountId,
        target_chain: u32,
        call_data: &[u8],
        reserved_fee: Balance,
        now: BlockNumber,
    ) -> (r: Result<(), XcmGatewayError>)
        requires
            old(self).wf(),
        ensures
            final(self).wf(),
            r == Ok::<(), XcmGatewayError>(()),
            final(self).log@ == old(self).log@,
            if old(self).has_pending(transaction_id) {
                final(self).pending@ == old(self).pending@
            } else {
                &&& final(self).pending@ == old(self).pending@.push(
                    final(self).pending@.last(),
                )
                &&& pending_entry_matches(
                    final(self).pending@.last(),
                    transaction_id,
                    pool_id,
                    user,
                    target_chain,
                    call_hash_of(call_data@),
                    reserved_fee,
                    now,
                )
            },
    {
        match self.find_pending(transaction_id) {
            Some(_) => Ok(()),
            None => {
                let call_hash = blake2b_256(call_data);
                let entry = PendingTransaction {
                    transaction_id,
                    pool_id,
                    user,
                    target_chain,
                    call_hash,
                    reserved_fee,
                    retry_count: 0,
                    created_at: now,
                    last_retry_at: now,
                };
                self.pending.push(entry);
                Ok(())
            },
        }
    }

    /// The transaction ids of the pending entries the periodic sweep should
    /// look at, in index order.
    pub fn get_retry_candidates(&self, now: BlockNumber, max_age: BlockNumber) -> (r: Vec<u64>)
        requires
            self.wf(),
        ensures
            r@ == candidates_upto(self.pending@, now, max_age, self.pending@.len() as int),
    {
        let mut candidates: Vec<u64> = Vec::new();
        let mut i: usize = 0;
        while i < self.pending.len()
            invariant
                self.wf(),
                i <= self.pending@.len(),
                candidates@ == candidates_upto(self.pending@, now, max_age, i as int),
            decreases self.pending@.len() - i,
        {
            let entry = &self.pending[i];
            let age = if now >= entry.created_at {
                now - entry.created_at
            } else {
                0
            };
            if age >= max_age && crate::retry::RetryHandler::is_ready_for_retry(
                entry.last_retry_at,
                entry.retry_count,
                now,
            ) {
                candidates.push(entry.transaction_id);
            }
            i = i + 1;
        }
        candidates
    }
}

/// Field-wise description of a freshly registered pending entry.
pub open spec fn pending_entry_matches(
    entry: PendingTransaction,
    transaction_id: u64,
    pool_id: PoolId,
    user: AccountId,
    target_chain: u32,
    call_hash: Seq<u8>,
    reserved_fee: Balance,
    now: BlockNumber,
) -> bool {
    &&& entry.transaction_id == transaction_id
    &&& entry.pool_id == pool_id
    &&& entry.user == user
    &&& entry.target_chain == target_chain
    &&& entry.call_hash@ == call_hash
    &&& entry.reserved_fee == reserved_fee
    &&& entry.retry_count == 0
    &&& entry.created_at == now
    &&& entry.last_retry_at == now
}

} // verus!
