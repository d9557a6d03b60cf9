//! Retry scheduling for in-flight sponsored transactions.
//!
//! A pending transaction carries a retry count in `[0, MAX_RETRIES]`. A
//! resubmission is ready once `BASE_DELAY_BLOCKS * 2^count` blocks passed
//! since the last attempt; at `MAX_RETRIES` the scheduler gives up and the
//! caller must settle the transaction with a full refund.

use vstd::prelude::*;
use crate::ledger::Pallet;
use crate::message::XcmGatewayError;
use crate::receipt::ReceiptProcessor;
use crate::tracker::{candidates_upto, retry_candidate, PendingTransaction, TransactionTracker};
use crate::types::{BlockNumber, PoolInfo, TransactionRecord, TransactionStatus};

verus! {

/// How a pool may change under settlements alone: identity, configuration
/// and status are untouched; refunds move value from the committed total
/// back to the balance and never create any.
pub open spec fn pool_settle_related(p0: PoolInfo, p1: PoolInfo) -> bool {
    &&& p1.owner == p0.owner
    &&& p1.created_at == p0.created_at
    &&& p1.config == p0.config
    &&& p1.status == p0.status
    &&& p1.balance >= p0.balance
    &&& p1.total_spent <= p0.total_spent
    &&& p1.balance + p1.total_spent <= p0.balance + p0.total_spent
}

/// How the log may change under settlements alone: records keep their
/// contents, and a status may only turn `Failed`.
pub open spec fn log_failed_related(l0: Seq<TransactionRecord>, l1: Seq<TransactionRecord>) -> bool {
    &&& l1.len() == l0.len()
    &&& forall|t: int|
        0 <= t < l0.len() ==> ((#[trigger] l1[t]) == l0[t] || l1[t] == crate::tracker::with_status(
            l0[t],
            TransactionStatus::Failed,
        ))
}

/// Largest number of retry attempts per transaction.
pub const MAX_RETRIES: u8 = 3;

/// Base delay of the exponential backoff, in blocks.
pub const BASE_DELAY_BLOCKS: u32 = 5;

/// Age, in blocks, past which the periodic sweep considers a pending
/// transaction stale.
pub const MAX_PENDING_AGE_BLOCKS: u64 = 100;

/// Two to the given power.
pub open spec fn pow2_of(n: nat) -> nat
    decreases n,
{
    if n == 0 {
        1
    } else {
        2 * pow2_of((n - 1) as nat)
    }
}

/// The backoff delay before retry number `n`: the base delay doubled `n`
/// times, saturated at the block-count limit.
pub open spec fn backoff_delay_spec(n: u8) -> int {
    if BASE_DELAY_BLOCKS * pow2_of(n as nat) > u32::MAX {
        u32::MAX as int
    } else {
        BASE_DELAY_BLOCKS * pow2_of(n as nat)
    }
}

/// Two to any power is at least one.
pub proof fn lemma_pow2_pos(n: nat)
    ensures
        pow2_of(n) >= 1,
    decreases n,
{
    if n > 0 {
        lemma_pow2_pos((n - 1) as nat);
    }
}

/// Every backoff delay is at least the base delay, so a freshly re-armed
/// retry is never immediately ready again.
pub proof fn lemma_backoff_at_least_base(n: u8)
    ensures
        backoff_delay_spec(n) >= BASE_DELAY_BLOCKS,
{
    lemma_pow2_pos(n as nat);
    if BASE_DELAY_BLOCKS * pow2_of(n as nat) > u32::MAX {
    } else {
        assert(BASE_DELAY_BLOCKS * pow2_of(n as nat) >= BASE_DELAY_BLOCKS * 1) by (nonlinear_arith)
            requires
                pow2_of(n as nat) >= 1,
        ;
    }
}

/// Whether enough blocks passed since the last attempt for retry number `n`.
pub open spec fn is_ready_spec(last_retry_block: u64, retry_count: u8, current_block: u64) -> bool {
    (if current_block >= last_retry_block {
        current_block - last_retry_block
    } else {
        0
    }) >= backoff_delay_spec(retry_count)
}

/// Retry logic with exponential backoff.
pub struct RetryHandler;

impl RetryHandler {
    /// The delay before retry number `retry_count`, in blocks.
    pub fn calculate_backoff_delay(retry_count: u8) -> (r: u32)
        ensures
            r == backoff_delay_spec(retry_count),
    {
        let mut delay: u32 = BASE_DELAY_BLOCKS;
        let mut i: u8 = 0;
        while i < retry_count
            invariant
                i <= retry_count,
                delay == backoff_delay_spec(i),
            decreases retry_count - i,
        {
            proof {
                assert(pow2_of((i + 1) as nat) == 2 * pow2_of(i as nat));
            }
            delay = if delay > u32::MAX / 2 {
                u32::MAX
            } else {
                delay * 2
            };
            i = i + 1;
        }
        delay
    }

    /// Whether a pending transaction is due for resubmission.
    pub fn is_ready_for_retry(
        last_retry_block: BlockNumber,
        retry_count: u8,
        current_block: BlockNumber,
    ) -> (r: bool)
        ensures
            r == is_ready_spec(last_retry_block, retry_count, current_block),
    {
        let required_delay = Self::calculate_backoff_delay(retry_count);
        let blocks_since_retry = if current_block >= last_retry_block {
            current_block - last_retry_block
        } else {
            0
        };
        blocks_since_retry >= required_delay as u64
    }

    /// Attempt to schedule a resubmission of a pending transaction.
    ///
    /// At `MAX_RETRIES` the budget is exhausted: the call returns `false`
    /// and schedules nothing, and the caller must settle the transaction
    /// with a full refund. Below the budget the tracked entry, if any and
    /// if itself below the budget, advances to the next retry; an untracked
    /// id is accepted without effect.
    pub fn retry_transaction(
        tracker: &mut TransactionTracker,
        transaction_id: u64,
        current_retry_count: u8,
        now: BlockNumber,
    ) -> (r: Result<bool, XcmGatewayError>)
        requires
            old(tracker).wf(),
        ensures
            final(tracker).wf(),
            final(tracker).log@ == old(tracker).log@,
            if current_retry_count >= MAX_RETRIES {
                r == Ok::<bool, XcmGatewayError>(false) && final(tracker).pending@ == old(
                    tracker,
                ).pending@
            } else if old(tracker).has_pending(transaction_id) {
                if old(tracker).pending_entry(transaction_id).retry_count < MAX_RETRIES {
                    r == Ok::<bool, XcmGatewayError>(true) && final(tracker).pending@ == old(
                        tracker,
                    ).pending@.update(
                        old(tracker).pending_index(transaction_id),
                        rearmed(old(tracker).pending_entry(transaction_id), now),
                    )
                } else {
                    r == Ok::<bool, XcmGatewayError>(false) && final(tracker).pending@ == old(
                        tracker,
                    ).pending@
                }
            } else {
                r == Ok::<bool, XcmGatewayError>(true) && final(tracker).pending@ == old(
                    tracker,
                ).pending@
            },
    {
        if current_retry_count >= MAX_RETRIES {
            return Ok(false);
        }
        let index = match tracker.find_pending(transaction_id) {
            Some(i) => i,
            None => {
                return Ok(true);
            },
        };
        let count = tracker.pending[index].retry_count;
        if count >= MAX_RETRIES {
            return Ok(false);
        }
        tracker.pending[index].retry_count = count + 1;
        tracker.pending[index].last_retry_at = now;
        Ok(true)
    }

    /// The periodic sweep: visit every pending transaction that is stale by
    /// age and ready by backoff, advance its retry while budget remains,
    /// and settle it — full refund, record `Failed`, entry dropped — once
    /// the budget is spent. One candidate's settlement never aborts the
    /// sweep. Returns how many candidates were visited.
    pub fn process_retry_queue(state: &mut Pallet, now: BlockNumber) -> (r: Result<
        u32,
        XcmGatewayError,
    >)
        requires
            old(state).wf(),
        ensures
            final(state).wf(),
            final(state).auths@ == old(state).auths@,
            final(state).events@ == old(state).events@,
            final(state).funded@ == old(state).funded@,
            final(state).pools@.len() == old(state).pools@.len(),
            forall|p: int|
                0 <= p < old(state).pools@.len() ==> pool_settle_related(
                    #[trigger] old(state).pools@[p],
                    final(state).pools@[p],
                ),
            log_failed_related(old(state).tracker.log@, final(state).tracker.log@),
            final(state).tracker.pending@.len() <= old(state).tracker.pending@.len(),
            forall|j: int|
                0 <= j < final(state).tracker.pending@.len() ==> !retry_candidate(
                    #[trigger] final(state).tracker.pending@[j],
                    now,
                    MAX_PENDING_AGE_BLOCKS,
                ),
            match r {
                Ok(count) => count == ({
                    let n = candidates_upto(
                        old(state).tracker.pending@,
                        now,
                        MAX_PENDING_AGE_BLOCKS,
                        old(state).tracker.pending@.len() as int,
                    ).len();
                    if n > u32::MAX {
                        u32::MAX as int
                    } else {
                        n as int
                    }
                }),
                Err(_) => false,
            },
    {
        let candidates = state.tracker.get_retry_candidates(now, MAX_PENDING_AGE_BLOCKS);
        proof {
            assert forall|j: int|
                0 <= j < state.tracker.pending@.len() && retry_candidate(
                    #[trigger] state.tracker.pending@[j],
                    now,
                    MAX_PENDING_AGE_BLOCKS,
                ) implies exists|k: int|
                0 <= k < candidates@.len() && candidates@[k]
                    == state.tracker.pending@[j].transaction_id by {
                crate::tracker::lemma_candidates_complete(
                    state.tracker.pending@,
                    now,
                    MAX_PENDING_AGE_BLOCKS,
                    state.tracker.pending@.len() as int,
                    j,
                );
            }
        }
        let mut processed_count: u32 = 0;
        let mut i: usize = 0;
        while i < candidates.len()
            invariant
                state.wf(),
                candidates@ == candidates_upto(
                    old(state).tracker.pending@,
                    now,
                    MAX_PENDING_AGE_BLOCKS,
                    old(state).tracker.pending@.len() as int,
                ),
                i <= candidates@.len(),
                processed_count == if i > u32::MAX {
                    u32::MAX as int
                } else {
                    i as int
                },
                state.auths@ == old(state).auths@,
                state.events@ == old(state).events@,
                state.funded@ == old(state).funded@,
                state.pools@.len() == old(state).pools@.len(),
                forall|p: int|
                    0 <= p < old(state).pools@.len() ==> pool_settle_related(
                        #[trigger] old(state).pools@[p],
                        state.pools@[p],
                    ),
                log_failed_related(old(state).tracker.log@, state.tracker.log@),
                state.tracker.pending@.len() <= old(state).tracker.pending@.len(),
                forall|j: int|
                    0 <= j < state.tracker.pending@.len() && retry_candidate(
                        #[trigger] state.tracker.pending@[j],
                        now,
                        MAX_PENDING_AGE_BLOCKS,
                    ) ==> exists|k: int|
                        i <= k < candidates@.len() && candidates@[k]
                            == state.tracker.pending@[j].transaction_id,
            decreases candidates@.len() - i,
        {
            let transaction_id = candidates[i];
            let ghost before = *state;
            match state.tracker.find_pending(transaction_id) {
                Some(idx) => {
                    let pool_id = state.tracker.pending[idx].pool_id;
                    let user = state.tracker.pending[idx].user;
                    let reserved = state.tracker.pending[idx].reserved_fee;
                    let count = state.tracker.pending[idx].retry_count;
                    if count >= MAX_RETRIES {
                        ReceiptProcessor::refund_unused_gas(state, pool_id, user, reserved);
                        state.tracker.remove_pending(transaction_id);
                        match state.tracker.mark_failed(transaction_id) {
                            Ok(_) => {},
                            Err(_) => {},
                        }
                        proof {
                            assert forall|p: int|
                                0 <= p < old(state).pools@.len() implies pool_settle_related(
                                #[trigger] old(state).pools@[p],
                                state.pools@[p],
                            ) by {
                                assert(pool_settle_related(before.pools@[p], state.pools@[p]));
                            }
                            let ridx = before.tracker.pending_index(transaction_id);
                            assert forall|j: int|
                                0 <= j < state.tracker.pending@.len() && retry_candidate(
                                    #[trigger] state.tracker.pending@[j],
                                    now,
                                    MAX_PENDING_AGE_BLOCKS,
                                ) implies exists|k: int|
                                i + 1 <= k < candidates@.len() && candidates@[k]
                                    == state.tracker.pending@[j].transaction_id by {
                                let j0 = if j < ridx {
                                    j
                                } else {
                                    j + 1
                                };
                                assert(state.tracker.pending@[j] == before.tracker.pending@[j0]);
                                assert(retry_candidate(
                                    before.tracker.pending@[j0],
                                    now,
                                    MAX_PENDING_AGE_BLOCKS,
                                ));
                                let k = choose|k: int|
                                    i <= k < candidates@.len() && candidates@[k]
                                        == before.tracker.pending@[j0].transaction_id;
                                if k == i {
                                    assert(before.tracker.pending@[j0].transaction_id
                                        == before.tracker.pending@[ridx].transaction_id);
                                    assert(false);
                                }
                            }
                        }
                    } else {
                        state.tracker.pending[idx].retry_count = count + 1;
                        state.tracker.pending[idx].last_retry_at = now;
                        proof {
                            lemma_backoff_at_least_base(state.tracker.pending@[idx as int].retry_count);
                            assert forall|j: int|
                                0 <= j < state.tracker.pending@.len() && retry_candidate(
                                    #[trigger] state.tracker.pending@[j],
                                    now,
                                    MAX_PENDING_AGE_BLOCKS,
                                ) implies exists|k: int|
                                i + 1 <= k < candidates@.len() && candidates@[k]
                                    == state.tracker.pending@[j].transaction_id by {
                                // The re-armed entry itself is not ready: its last
                                // attempt is this very block.
                                assert(j != idx as int);
                                assert(state.tracker.pending@[j] == before.tracker.pending@[j]);
                                let k = choose|k: int|
                                    i <= k < candidates@.len() && candidates@[k]
                                        == before.tracker.pending@[j].transaction_id;
                                if k == i {
                                    assert(before.tracker.pending@[j].transaction_id
                                        == before.tracker.pending@[idx as int].transaction_id);
                                    assert(false);
                                }
                            }
                        }
                    }
                },
                None => {
                    proof {
                        assert forall|j: int|
                            0 <= j < state.tracker.pending@.len() && retry_candidate(
                                #[trigger] state.tracker.pending@[j],
                                now,
                                MAX_PENDING_AGE_BLOCKS,
                            ) implies exists|k: int|
                            i + 1 <= k < candidates@.len() && candidates@[k]
                                == state.tracker.pending@[j].transaction_id by {
                            let k = choose|k: int|
                                i <= k < candidates@.len() && candidates@[k]
                                    == state.tracker.pending@[j].transaction_id;
                            if k == i {
                                assert(state.tracker.has_pending(transaction_id));
                                assert(false);
                            }
                        }
                    }
                },
            }
            processed_count = processed_count.saturating_add(1);
            i = i + 1;
        }
        Ok(processed_count)
    }
}

/// A pending entry advanced to its next retry at the given block.
pub open spec fn rearmed(entry: PendingTransaction, now: BlockNumber) -> PendingTransaction {
    PendingTransaction {
        retry_count: (entry.retry_count + 1) as u8,
        last_retry_at: now,
        ..entry
    }
}

} // verus!
