//! Receipt processing: the authoritative, asynchronous report of how a
//! dispatched call executed, reconciled against the reservation.
//!
//! A receipt may arrive late, twice, or never. Processing is idempotent —
//! a receipt for an unknown, already-settled or untracked transaction is a
//! no-op — and every settlement moves value only between a pool's balance
//! and its committed total, so reconciliation can never create value or
//! overdraw a pool.

use vstd::prelude::*;
use crate::ledger::{
    pool_refunded, refund_applied, same_state, table_lookup, Pallet,
};
use crate::message::XcmGatewayError;
use crate::retry::MAX_RETRIES;
use crate::tracker::{with_status, PendingTransaction};
use crate::types::{
    is_terminal, sat_add_u128, status_is_terminal, AccountId, Balance, BlockNumber, PoolId,
    SpendingInfo, TransactionStatus,
};

verus! {

/// Execution result reported from the destination domain.
#[derive(Clone, Debug, PartialEq, Eq)]
pub enum ExecutionResult {
    Success,
    Failed(Vec<u8>),
    Timeout,
    InsufficientFunds,
}

/// Receipt of one dispatched call: external input, not owned by this
/// ledger.
#[derive(Clone, Debug, PartialEq, Eq)]
pub struct TransactionReceipt {
    pub transaction_id: u64,
    pub target_chain: u32,
    pub execution_result: ExecutionResult,
    pub actual_gas_used: Balance,
    pub block_hash: Vec<u8>,
    pub block_number: BlockNumber,
    pub events: Vec<u8>,
}

/// Receipt processing result.
#[derive(Clone, Copy, Debug, PartialEq, Eq, Structural)]
pub enum ReceiptProcessingResult {
    Processed,
    AlreadyProcessed,
    InvalidReceipt,
    PoolUpdateFailed,
}

/// Whether a block reference is the default one: empty or all zero.
pub open spec fn block_ref_is_default(h: Seq<u8>) -> bool {
    forall|i: int| 0 <= i < h.len() ==> h[i] == 0
}

/// Receipt integrity: a non-zero transaction id, a non-zero destination
/// and a non-default block reference.
pub open spec fn receipt_valid(receipt: TransactionReceipt) -> bool {
    &&& receipt.transaction_id != 0
    &&& receipt.target_chain != 0
    &&& !block_ref_is_default(receipt.block_hash@)
}

/// The unspent part of a reservation: what was reserved beyond the actual
/// cost, and nothing when the actual cost ran over.
pub open spec fn refund_of(reserved: Balance, actual: Balance) -> Balance {
    if actual <= reserved {
        (reserved - actual) as u128
    } else {
        0
    }
}

/// A pending entry re-armed after a timeout: the reservation was refunded,
/// so no fee backs the entry any more; the retry advances at the given
/// block.
pub open spec fn timeout_rearmed(entry: PendingTransaction, now: BlockNumber) -> PendingTransaction {
    PendingTransaction {
        reserved_fee: 0,
        retry_count: (entry.retry_count + 1) as u8,
        last_retry_at: now,
        ..entry
    }
}

/// What processing a receipt returns: invalid receipts are refused, and a
/// receipt for an unknown, already-terminal or untracked transaction is an
/// idempotent no-op.
pub open spec fn receipt_outcome(s: Pallet, receipt: TransactionReceipt) -> ReceiptProcessingResult {
    if !receipt_valid(receipt) {
        ReceiptProcessingResult::InvalidReceipt
    } else if !s.tracker.has_record(receipt.transaction_id) {
        ReceiptProcessingResult::AlreadyProcessed
    } else if is_terminal(s.tracker.record_at(receipt.transaction_id).status) {
        ReceiptProcessingResult::AlreadyProcessed
    } else if !s.tracker.has_pending(receipt.transaction_id) {
        ReceiptProcessingResult::AlreadyProcessed
    } else {
        ReceiptProcessingResult::Processed
    }
}

/// The settlement shared by every failure outcome: the full reserved fee
/// returns to the pool and to the spender's counters, the record turns
/// `Failed`, and the pending entry leaves the index.
pub open spec fn settled_failed(s0: Pallet, s1: Pallet, tx: u64) -> bool {
    let entry = s0.tracker.pending_entry(tx);
    &&& s1.pools@ == s0.pools@.update(
        entry.pool_id as int,
        pool_refunded(s0.pool_at(entry.pool_id), entry.reserved_fee),
    )
    &&& table_lookup(s1.spending@, entry.pool_id, entry.user) == refund_applied(
        table_lookup(s0.spending@, entry.pool_id, entry.user),
        entry.reserved_fee,
    )
    &&& forall|p: PoolId, u: AccountId|
        !(p == entry.pool_id && u == entry.user) ==> #[trigger] table_lookup(s1.spending@, p, u)
            == table_lookup(s0.spending@, p, u)
    &&& s1.tracker.log@ == s0.tracker.log@.update(
        tx as int,
        with_status(s0.tracker.record_at(tx), TransactionStatus::Failed),
    )
    &&& s1.tracker.pending@ == s0.tracker.pending@.remove(s0.tracker.pending_index(tx))
}

/// The state transition of a processed receipt, by execution result.
pub open spec fn receipt_effects(
    s0: Pallet,
    s1: Pallet,
    receipt: TransactionReceipt,
    now: BlockNumber,
) -> bool {
    let tx = receipt.transaction_id;
    let entry = s0.tracker.pending_entry(tx);
    &&& s1.auths@ == s0.auths@
    &&& s1.events@ == s0.events@
    &&& s1.funded@ == s0.funded@
    &&& match receipt.execution_result {
        ExecutionResult::Success => {
            let refund = refund_of(entry.reserved_fee, receipt.actual_gas_used);
            &&& s1.pools@ == s0.pools@.update(
                entry.pool_id as int,
                pool_refunded(s0.pool_at(entry.pool_id), refund),
            )
            &&& table_lookup(s1.spending@, entry.pool_id, entry.user) == refund_applied(
                table_lookup(s0.spending@, entry.pool_id, entry.user),
                refund,
            )
            &&& forall|p: PoolId, u: AccountId|
                !(p == entry.pool_id && u == entry.user) ==> #[trigger] table_lookup(
                    s1.spending@,
                    p,
                    u,
                ) == table_lookup(s0.spending@, p, u)
            &&& s1.tracker.log@ == s0.tracker.log@.update(
                tx as int,
                with_status(s0.tracker.record_at(tx), TransactionStatus::Executed),
            )
            &&& s1.tracker.pending@ == s0.tracker.pending@.remove(s0.tracker.pending_index(tx))
        },
        ExecutionResult::Failed(_) => settled_failed(s0, s1, tx),
        ExecutionResult::Timeout => {
            if entry.retry_count < MAX_RETRIES {
                &&& s1.pools@ == s0.pools@.update(
                    entry.pool_id as int,
                    pool_refunded(s0.pool_at(entry.pool_id), entry.reserved_fee),
                )
                &&& table_lookup(s1.spending@, entry.pool_id, entry.user) == refund_applied(
                    table_lookup(s0.spending@, entry.pool_id, entry.user),
                    entry.reserved_fee,
                )
                &&& forall|p: PoolId, u: AccountId|
                    !(p == entry.pool_id && u == entry.user) ==> #[trigger] table_lookup(
                        s1.spending@,
                        p,
                        u,
                    ) == table_lookup(s0.spending@, p, u)
                &&& s1.tracker.log@ == s0.tracker.log@
                &&& s1.tracker.pending@ == s0.tracker.pending@.update(
                    s0.tracker.pending_index(tx),
                    timeout_rearmed(entry, now),
                )
            } else {
                settled_failed(s0, s1, tx)
            }
        },
        ExecutionResult::InsufficientFunds => settled_failed(s0, s1, tx),
    }
}

/// Receipt processing is idempotent: once a receipt with a terminal
/// outcome is processed, processing the same receipt again returns
/// `AlreadyProcessed` — and, by the receipt processor's contract, such a
/// call leaves the ledger unchanged, so no refund or status transition can
/// happen twice. The one outcome that stays processable is a timeout whose
/// retry budget remains: it re-arms the transaction rather than ending it.
pub proof fn lemma_receipt_idempotent(
    s0: Pallet,
    s1: Pallet,
    receipt: TransactionReceipt,
    now: BlockNumber,
)
    requires
        receipt_outcome(s0, receipt) == ReceiptProcessingResult::Processed,
        receipt_effects(s0, s1, receipt, now),
        !(receipt.execution_result is Timeout
            && s0.tracker.pending_entry(receipt.transaction_id).retry_count < MAX_RETRIES),
    ensures
        receipt_outcome(s1, receipt) == ReceiptProcessingResult::AlreadyProcessed,
{
    let tx = receipt.transaction_id;
    match receipt.execution_result {
        ExecutionResult::Success => {
            assert(s1.tracker.record_at(tx).status == TransactionStatus::Executed);
        },
        _ => {
            assert(s1.tracker.record_at(tx).status == TransactionStatus::Failed);
        },
    }
}

/// Applies reservation-versus-actual deltas back to the pool ledger.
pub struct PoolBalanceUpdater;

impl PoolBalanceUpdater {
    /// Reconcile a reservation against the actual consumption: the unspent
    /// difference — never negative — returns from the pool's committed
    /// total to its balance, clamped so the move can never exceed what is
    /// committed. Returns the refund.
    pub fn update_for_actual_consumption(
        state: &mut Pallet,
        pool_id: PoolId,
        reserved_amount: Balance,
        actual_amount: Balance,
    ) -> (r: Result<Balance, XcmGatewayError>)
        requires
            old(state).wf(),
        ensures
            final(state).wf(),
            final(state).auths@ == old(state).auths@,
            final(state).spending@ == old(state).spending@,
            final(state).tracker.log@ == old(state).tracker.log@,
            final(state).tracker.pending@ == old(state).tracker.pending@,
            final(state).events@ == old(state).events@,
            final(state).funded@ == old(state).funded@,
            match r {
                Ok(refund) => {
                    &&& old(state).has_pool(pool_id)
                    &&& refund == refund_of(reserved_amount, actual_amount)
                    &&& final(state).pools@ == old(state).pools@.update(
                        pool_id as int,
                        pool_refunded(old(state).pool_at(pool_id), refund),
                    )
                },
                Err(e) => {
                    &&& !old(state).has_pool(pool_id)
                    &&& e == XcmGatewayError::ReceiptProcessingError
                    &&& final(state).pools@ == old(state).pools@
                },
            },
    {
        if pool_id as usize >= state.pools.len() {
            return Err(XcmGatewayError::ReceiptProcessingError);
        }
        let difference = if actual_amount <= reserved_amount {
            reserved_amount - actual_amount
        } else {
            0
        };
        let i = pool_id as usize;
        let committed = state.pools[i].total_spent;
        let applied = if difference <= committed {
            difference
        } else {
            committed
        };
        state.pools[i].balance = state.pools[i].balance.saturating_add(applied);
        state.pools[i].total_spent = committed - applied;
        Ok(difference)
    }

    /// Return a full reservation to a pool after a failed or abandoned
    /// call, clamped so the move can never exceed what is committed.
    pub fn refund_full_amount(state: &mut Pallet, pool_id: PoolId, refund_amount: Balance) -> (r:
        Result<(), XcmGatewayError>)
        requires
            old(state).wf(),
        ensures
            final(state).wf(),
            final(state).auths@ == old(state).auths@,
            final(state).spending@ == old(state).spending@,
            final(state).tracker.log@ == old(state).tracker.log@,
            final(state).tracker.pending@ == old(state).tracker.pending@,
            final(state).events@ == old(state).events@,
            final(state).funded@ == old(state).funded@,
            match r {
                Ok(_) => {
                    &&& old(state).has_pool(pool_id)
                    &&& final(state).pools@ == old(state).pools@.update(
                        pool_id as int,
                        pool_refunded(old(state).pool_at(pool_id), refund_amount),
                    )
                },
                Err(e) => {
                    &&& !old(state).has_pool(pool_id)
                    &&& e == XcmGatewayError::ReceiptProcessingError
                    &&& final(state).pools@ == old(state).pools@
                },
            },
    {
        if pool_id as usize >= state.pools.len() {
            return Err(XcmGatewayError::ReceiptProcessingError);
        }
        let i = pool_id as usize;
        let committed = state.pools[i].total_spent;
        let applied = if refund_amount <= committed {
            refund_amount
        } else {
            committed
        };
        state.pools[i].balance = state.pools[i].balance.saturating_add(applied);
        state.pools[i].total_spent = committed - applied;
        Ok(())
    }

    /// Adjust a spender's counters after reconciliation: a refunded amount
    /// lowers both running totals, an extra charge raises them.
    pub fn update_user_spending(
        state: &mut Pallet,
        pool_id: PoolId,
        user: AccountId,
        actual_spent: Balance,
        was_refunded: bool,
    ) -> (r: Result<(), XcmGatewayError>)
        requires
            old(state).wf(),
        ensures
            final(state).wf(),
            r == Ok::<(), XcmGatewayError>(()),
            final(state).pools@ == old(state).pools@,
            final(state).auths@ == old(state).auths@,
            final(state).tracker.log@ == old(state).tracker.log@,
            final(state).tracker.pending@ == old(state).tracker.pending@,
            final(state).events@ == old(state).events@,
            final(state).funded@ == old(state).funded@,
            table_lookup(final(state).spending@, pool_id, user) == (if was_refunded {
                refund_applied(table_lookup(old(state).spending@, pool_id, user), actual_spent)
            } else {
                charged_applied(table_lookup(old(state).spending@, pool_id, user), actual_spent)
            }),
            forall|p: PoolId, u: AccountId|
                !(p == pool_id && u == user) ==> #[trigger] table_lookup(
                    final(state).spending@,
                    p,
                    u,
                ) == table_lookup(old(state).spending@, p, u),
    {
        let current = state.user_spending(pool_id, user);
        let updated = if was_refunded {
            SpendingInfo {
                total_spent: current.total_spent.saturating_sub(actual_spent),
                daily_spent: current.daily_spent.saturating_sub(actual_spent),
                last_reset: current.last_reset,
            }
        } else {
            SpendingInfo {
                total_spent: current.total_spent.saturating_add(actual_spent),
                daily_spent: current.daily_spent.saturating_add(actual_spent),
                last_reset: current.last_reset,
            }
        };
        state.set_spending(pool_id, user, updated);
        Ok(())
    }
}

/// Spending counters after an extra charge outside the daily-window
/// bookkeeping: both running totals rise by the amount.
pub open spec fn charged_applied(s: SpendingInfo, amount: Balance) -> SpendingInfo {
    SpendingInfo {
        total_spent: sat_add_u128(s.total_spent, amount),
        daily_spent: sat_add_u128(s.daily_spent, amount),
        last_reset: s.last_reset,
    }
}

/// Consumes execution receipts and settles them against the ledger.
pub struct ReceiptProcessor;

impl ReceiptProcessor {
    /// Process an incoming execution receipt.
    ///
    /// An invalid receipt is refused; one for an unknown, already-settled
    /// or untracked transaction is an idempotent no-op. Otherwise the
    /// reservation is settled by the execution result: a success refunds
    /// the unspent difference and ends in `Executed`; a failure or an
    /// out-of-funds report refunds everything and ends in `Failed`; a
    /// timeout refunds everything and re-arms the retry while budget
    /// remains, ending in `Failed` once it is spent.
    pub fn process_receipt(state: &mut Pallet, receipt: TransactionReceipt, now: BlockNumber) -> (r:
        Result<ReceiptProcessingResult, XcmGatewayError>)
        requires
            old(state).wf(),
        ensures
            final(state).wf(),
            match r {
                Ok(res) => {
                    &&& res == receipt_outcome(*old(state), receipt)
                    &&& (res == ReceiptProcessingResult::Processed ==> receipt_effects(
                        *old(state),
                        *final(state),
                        receipt,
                        now,
                    ))
                    &&& (res != ReceiptProcessingResult::Processed ==> same_state(
                        *old(state),
                        *final(state),
                    ))
                },
                Err(_) => false,
            },
    {
        if !Self::validate_receipt(&receipt) {
            return Ok(ReceiptProcessingResult::InvalidReceipt);
        }
        let tx = receipt.transaction_id;
        if tx >= state.tracker.log.len() as u64 {
            return Ok(ReceiptProcessingResult::AlreadyProcessed);
        }
        if status_is_terminal(state.tracker.log[tx as usize].status) {
            return Ok(ReceiptProcessingResult::AlreadyProcessed);
        }
        let pidx = match state.tracker.find_pending(tx) {
            Some(i) => i,
            None => {
                return Ok(ReceiptProcessingResult::AlreadyProcessed);
            },
        };
        let pool_id = state.tracker.pending[pidx].pool_id;
        let user = state.tracker.pending[pidx].user;
        let reserved = state.tracker.pending[pidx].reserved_fee;
        let retry_count = state.tracker.pending[pidx].retry_count;
        match &receipt.execution_result {
            ExecutionResult::Success => {
                Self::handle_successful_execution(
                    state,
                    pool_id,
                    user,
                    reserved,
                    receipt.actual_gas_used,
                );
                match state.tracker.mark_executed(tx) {
                    Ok(_) => {},
                    Err(_) => {},
                }
            },
            ExecutionResult::Failed(_) => {
                Self::handle_failed_execution(state, pool_id, user, reserved);
                match state.tracker.mark_failed(tx) {
                    Ok(_) => {},
                    Err(_) => {},
                }
            },
            ExecutionResult::Timeout => {
                Self::handle_timeout(state, pool_id, user, reserved);
                if retry_count < MAX_RETRIES {
                    state.tracker.pending[pidx].reserved_fee = 0;
                    state.tracker.pending[pidx].retry_count = retry_count + 1;
                    state.tracker.pending[pidx].last_retry_at = now;
                    proof {
                        let e0 = old(state).tracker.pending_entry(receipt.transaction_id);
                        assert(state.tracker.pending@[pidx as int] == timeout_rearmed(e0, now));
                        assert(state.tracker.pending@ =~= old(state).tracker.pending@.update(
                            old(state).tracker.pending_index(receipt.transaction_id),
                            timeout_rearmed(e0, now),
                        ));
                    }
                } else {
                    match state.tracker.mark_failed(tx) {
                        Ok(_) => {},
                        Err(_) => {},
                    }
                }
            },
            ExecutionResult::InsufficientFunds => {
                Self::handle_insufficient_funds(state, pool_id, user, reserved);
                match state.tracker.mark_failed(tx) {
                    Ok(_) => {},
                    Err(_) => {},
                }
            },
        }
        Ok(ReceiptProcessingResult::Processed)
    }

    /// A successful execution: the unspent difference returns to the pool
    /// and to the spender's counters.
    fn handle_successful_execution(
        state: &mut Pallet,
        pool_id: PoolId,
        user: AccountId,
        reserved: Balance,
        actual: Balance,
    )
        requires
            old(state).wf(),
            old(state).has_pool(pool_id),
        ensures
            final(state).wf(),
            final(state).pools@ == old(state).pools@.update(
                pool_id as int,
                pool_refunded(old(state).pool_at(pool_id), refund_of(reserved, actual)),
            ),
            table_lookup(final(state).spending@, pool_id, user) == refund_applied(
                table_lookup(old(state).spending@, pool_id, user),
                refund_of(reserved, actual),
            ),
            forall|p: PoolId, u: AccountId|
                !(p == pool_id && u == user) ==> #[trigger] table_lookup(
                    final(state).spending@,
                    p,
                    u,
                ) == table_lookup(old(state).spending@, p, u),
            final(state).auths@ == old(state).auths@,
            final(state).tracker.log@ == old(state).tracker.log@,
            final(state).tracker.pending@ == old(state).tracker.pending@,
            final(state).events@ == old(state).events@,
            final(state).funded@ == old(state).funded@,
    {
        let refund = match PoolBalanceUpdater::update_for_actual_consumption(
            state,
            pool_id,
            reserved,
            actual,
        ) {
            Ok(refund) => refund,
            Err(_) => {
                proof {
                    assert(false);
                }
                0
            },
        };
        match PoolBalanceUpdater::update_user_spending(state, pool_id, user, refund, true) {
            Ok(_) => {},
            Err(_) => {},
        }
    }

    /// A failed execution: the full reservation returns to the pool and to
    /// the spender's counters.
    fn handle_failed_execution(
        state: &mut Pallet,
        pool_id: PoolId,
        user: AccountId,
        reserved: Balance,
    )
        requires
            old(state).wf(),
            old(state).has_pool(pool_id),
        ensures
            final(state).wf(),
            final(state).pools@ == old(state).pools@.update(
                pool_id as int,
                pool_refunded(old(state).pool_at(pool_id), reserved),
            ),
            table_lookup(final(state).spending@, pool_id, user) == refund_applied(
                table_lookup(old(state).spending@, pool_id, user),
                reserved,
            ),
            forall|p: PoolId, u: AccountId|
                !(p == pool_id && u == user) ==> #[trigger] table_lookup(
                    final(state).spending@,
                    p,
                    u,
                ) == table_lookup(old(state).spending@, p, u),
            final(state).auths@ == old(state).auths@,
            final(state).tracker.log@ == old(state).tracker.log@,
            final(state).tracker.pending@ == old(state).tracker.pending@,
            final(state).events@ == old(state).events@,
            final(state).funded@ == old(state).funded@,
    {
        Self::refund_unused_gas(state, pool_id, user, reserved);
    }

    /// A timed-out execution: the full reservation returns; the caller
    /// decides whether the retry is re-armed.
    fn handle_timeout(state: &mut Pallet, pool_id: PoolId, user: AccountId, reserved: Balance)
        requires
            old(state).wf(),
            old(state).has_pool(pool_id),
        ensures
            final(state).wf(),
            final(state).pools@ == old(state).pools@.update(
                pool_id as int,
                pool_refunded(old(state).pool_at(pool_id), reserved),
            ),
            table_lookup(final(state).spending@, pool_id, user) == refund_applied(
                table_lookup(old(state).spending@, pool_id, user),
                reserved,
            ),
            forall|p: PoolId, u: AccountId|
                !(p == pool_id && u == user) ==> #[trigger] table_lookup(
                    final(state).spending@,
                    p,
                    u,
                ) == table_lookup(old(state).spending@, p, u),
            final(state).auths@ == old(state).auths@,
            final(state).tracker.log@ == old(state).tracker.log@,
            final(state).tracker.pending@ == old(state).tracker.pending@,
            final(state).events@ == old(state).events@,
            final(state).funded@ == old(state).funded@,
    {
        Self::refund_unused_gas(state, pool_id, user, reserved);
    }

    /// An out-of-funds report: an estimator defect, not a user error; the
    /// full reservation returns.
    fn handle_insufficient_funds(
        state: &mut Pallet,
        pool_id: PoolId,
        user: AccountId,
        reserved: Balance,
    )
        requires
            old(state).wf(),
            old(state).has_pool(pool_id),
        ensures
            final(state).wf(),
            final(state).pools@ == old(state).pools@.update(
                pool_id as int,
                pool_refunded(old(state).pool_at(pool_id), reserved),
            ),
            table_lookup(final(state).spending@, pool_id, user) == refund_applied(
                table_lookup(old(state).spending@, pool_id, user),
                reserved,
            ),
            forall|p: PoolId, u: AccountId|
                !(p == pool_id && u == user) ==> #[trigger] table_lookup(
                    final(state).spending@,
                    p,
                    u,
                ) == table_lookup(old(state).spending@, p, u),
            final(state).auths@ == old(state).auths@,
            final(state).tracker.log@ == old(state).tracker.log@,
            final(state).tracker.pending@ == old(state).tracker.pending@,
            final(state).events@ == old(state).events@,
            final(state).funded@ == old(state).funded@,
    {
        Self::refund_unused_gas(state, pool_id, user, reserved);
    }

    /// Return a full reservation to the pool and lower the spender's
    /// counters by it.
    pub(crate) fn refund_unused_gas(state: &mut Pallet, pool_id: PoolId, user: AccountId, reserved: Balance)
        requires
            old(state).wf(),
            old(state).has_pool(pool_id),
        ensures
            final(state).wf(),
            final(state).pools@ == old(state).pools@.update(
                pool_id as int,
                pool_refunded(old(state).pool_at(pool_id), reserved),
            ),
            table_lookup(final(state).spending@, pool_id, user) == refund_applied(
                table_lookup(old(state).spending@, pool_id, user),
                reserved,
            ),
            forall|p: PoolId, u: AccountId|
                !(p == pool_id && u == user) ==> #[trigger] table_lookup(
                    final(state).spending@,
                    p,
                    u,
                ) == table_lookup(old(state).spending@, p, u),
            final(state).auths@ == old(state).auths@,
            final(state).tracker.log@ == old(state).tracker.log@,
            final(state).tracker.pending@ == old(state).tracker.pending@,
            final(state).events@ == old(state).events@,
            final(state).funded@ == old(state).funded@,
    {
        match PoolBalanceUpdater::refund_full_amount(state, pool_id, reserved) {
            Ok(_) => {},
            Err(_) => {
                proof {
                    assert(false);
                }
            },
        }
        match PoolBalanceUpdater::update_user_spending(state, pool_id, user, reserved, true) {
            Ok(_) => {},
            Err(_) => {},
        }
    }

    /// Receipt integrity check: pure and side-effect-free.
    pub fn validate_receipt(receipt: &TransactionReceipt) -> (r: bool)
        ensures
            r == receipt_valid(*receipt),
    {
        if receipt.transaction_id == 0 {
            return false;
        }
        if receipt.target_chain == 0 {
            return false;
        }
        let mut i: usize = 0;
        while i < receipt.block_hash.len()
            invariant
                i <= receipt.block_hash@.len(),
                receipt.transaction_id != 0,
                receipt.target_chain != 0,
                forall|j: int| 0 <= j < i ==> receipt.block_hash@[j] == 0,
            decreases receipt.block_hash@.len() - i,
        {
            if receipt.block_hash[i] != 0 {
                proof {
                    assert(receipt.block_hash@[i as int] != 0);
                    assert(!block_ref_is_default(receipt.block_hash@));
                }
                return true;
            }
            i = i + 1;
        }
        false
    }
}

} // verus!
