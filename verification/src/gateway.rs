//! The gateway coordinator: estimates, builds, validates and hands off a
//! cross-chain message, and keeps the tracker in step with the handoff.

use vstd::prelude::*;
use crate::fees::{chain_supported, estimate_of, FeeEstimator};
use crate::hashing::call_hash_of;
use crate::ledger::Pallet;
use crate::message::{
    XcmDispatcher, XcmGatewayError, XcmMessageBuilder, FEE_SANITY_CEILING, MAX_CALL_DATA,
};
use crate::tracker::{pending_entry_matches, with_status};
use crate::types::{copy_u8_vec, is_terminal, AccountId, BlockNumber, PoolId, TransactionStatus};

verus! {

/// The first reason a cross-chain send is refused, if any: unknown
/// destination, payload out of bounds, a fee cap past the sanity ceiling,
/// or a message referencing an unknown sponsor pool or transaction.
pub open spec fn gateway_denial(
    s: Pallet,
    pool_id: PoolId,
    target_chain: u32,
    call_data: Seq<u8>,
    transaction_id: u64,
) -> Option<XcmGatewayError> {
    if !chain_supported(target_chain) {
        Some(XcmGatewayError::UnsupportedDestination)
    } else if call_data.len() > MAX_CALL_DATA {
        Some(XcmGatewayError::MessageFormatError)
    } else if call_data.len() == 0 {
        Some(XcmGatewayError::MessageFormatError)
    } else if (estimate_of(target_chain, call_data) as u128) > FEE_SANITY_CEILING {
        Some(XcmGatewayError::MessageFormatError)
    } else if !s.has_pool(pool_id) {
        Some(XcmGatewayError::MessageFormatError)
    } else if !s.tracker.has_record(transaction_id) {
        Some(XcmGatewayError::MessageFormatError)
    } else if is_terminal(s.tracker.record_at(transaction_id).status) {
        Some(XcmGatewayError::MessageFormatError)
    } else {
        None
    }
}

/// The tracker's step on a successful send: the call is registered as in
/// flight (unless it already was) and its record is marked dispatched
/// (unless it already reached a terminal state).
pub open spec fn gateway_effects(
    s0: Pallet,
    s1: Pallet,
    pool_id: PoolId,
    user: AccountId,
    target_chain: u32,
    call_data: Seq<u8>,
    transaction_id: u64,
    now: BlockNumber,
) -> bool {
    let fee = estimate_of(target_chain, call_data) as u128;
    &&& if s0.tracker.has_pending(transaction_id) {
        s1.tracker.pending@ == s0.tracker.pending@
    } else {
        &&& s1.tracker.pending@ == s0.tracker.pending@.push(s1.tracker.pending@.last())
        &&& pending_entry_matches(
            s1.tracker.pending@.last(),
            transaction_id,
            pool_id,
            user,
            target_chain,
            call_hash_of(call_data),
            fee,
            now,
        )
    }
    &&& if !is_terminal(s0.tracker.record_at(transaction_id).status) {
        s1.tracker.log@ == s0.tracker.log@.update(
            transaction_id as int,
            with_status(s0.tracker.record_at(transaction_id), TransactionStatus::Dispatched),
        )
    } else {
        s1.tracker.log@ == s0.tracker.log@
    }
}

/// Coordinator of cross-chain sends.
pub struct XcmGateway;

impl XcmGateway {
    /// Send a cross-chain call: estimate its fee, build and validate the
    /// message, hand it to the transport, then register the call as in
    /// flight and mark its record dispatched. A refused send leaves the
    /// ledger untouched.
    pub fn send_cross_chain_transaction(
        state: &mut Pallet,
        pool_id: PoolId,
        user: AccountId,
        target_chain: u32,
        call_data: Vec<u8>,
        transaction_id: u64,
        now: BlockNumber,
    ) -> (r: Result<(), XcmGatewayError>)
        requires
            old(state).wf(),
        ensures
            final(state).wf(),
            final(state).pools@ == old(state).pools@,
            final(state).auths@ == old(state).auths@,
            final(state).spending@ == old(state).spending@,
            final(state).events@ == old(state).events@,
            final(state).funded@ == old(state).funded@,
            match r {
                Ok(_) => {
                    &&& gateway_denial(
                        *old(state),
                        pool_id,
                        target_chain,
                        call_data@,
                        transaction_id,
                    ) is None
                    &&& gateway_effects(
                        *old(state),
                        *final(state),
                        pool_id,
                        user,
                        target_chain,
                        call_data@,
                        transaction_id,
                        now,
                    )
                },
                Err(e) => {
                    &&& final(state).tracker.log@ == old(state).tracker.log@
                    &&& final(state).tracker.pending@ == old(state).tracker.pending@
                    &&& gateway_denial(
                        *old(state),
                        pool_id,
                        target_chain,
                        call_data@,
                        transaction_id,
                    ) == Some(e)
                },
            },
    {
        let estimated_fee = match FeeEstimator::estimate_fee(target_chain, call_data.as_slice()) {
            Ok(fee) => fee,
            Err(e) => {
                return Err(e);
            },
        };
        let message = match XcmMessageBuilder::format_for_parachain(
            target_chain,
            copy_u8_vec(&call_data),
            estimated_fee,
            pool_id,
            transaction_id,
        ) {
            Ok(m) => m,
            Err(e) => {
                return Err(e);
            },
        };
        match XcmDispatcher::dispatch_message(message) {
            Ok(_) => {},
            Err(e) => {
                return Err(e);
            },
        }
        if pool_id as usize >= state.pools.len() {
            return Err(XcmGatewayError::MessageFormatError);
        }
        if transaction_id >= state.tracker.log.len() as u64 {
            return Err(XcmGatewayError::MessageFormatError);
        }
        if crate::types::status_is_terminal(state.tracker.log[transaction_id as usize].status) {
            return Err(XcmGatewayError::MessageFormatError);
        }
        match state.tracker.add_pending_transaction(
            transaction_id,
            pool_id,
            user,
            target_chain,
            call_data.as_slice(),
            estimated_fee,
            now,
        ) {
            Ok(_) => {},
            Err(e) => {
                return Err(e);
            },
        }
        match state.tracker.mark_dispatched(transaction_id) {
            Ok(_) => {},
            Err(e) => {
                return Err(e);
            },
        }
        Ok(())
    }

    /// React to a failed dispatch handoff. A retryable failure schedules a
    /// resubmission of the pending entry; a non-retryable one settles the
    /// call immediately — full refund, record `Failed`, entry dropped — so
    /// no value is left stranded.
    pub fn handle_dispatch_failure(
        state: &mut Pallet,
        transaction_id: u64,
        error: XcmGatewayError,
        now: BlockNumber,
    ) -> (r: Result<(), XcmGatewayError>)
        requires
            old(state).wf(),
        ensures
            final(state).wf(),
            r == Ok::<(), XcmGatewayError>(()),
            final(state).auths@ == old(state).auths@,
            final(state).events@ == old(state).events@,
            final(state).funded@ == old(state).funded@,
            if is_retryable(error) {
                &&& final(state).pools@ == old(state).pools@
                &&& final(state).spending@ == old(state).spending@
                &&& final(state).tracker.log@ == old(state).tracker.log@
                &&& final(state).tracker.pending@ == (if old(state).tracker.has_pending(
                    transaction_id,
                ) && old(state).tracker.pending_entry(transaction_id).retry_count
                    < crate::retry::MAX_RETRIES {
                    old(state).tracker.pending@.update(
                        old(state).tracker.pending_index(transaction_id),
                        crate::retry::rearmed(
                            old(state).tracker.pending_entry(transaction_id),
                            now,
                        ),
                    )
                } else {
                    old(state).tracker.pending@
                })
            } else {
                &&& (if old(state).tracker.has_pending(transaction_id) {
                    let entry = old(state).tracker.pending_entry(transaction_id);
                    &&& final(state).pools@ == old(state).pools@.update(
                        entry.pool_id as int,
                        crate::ledger::pool_refunded(
                            old(state).pool_at(entry.pool_id),
                            entry.reserved_fee,
                        ),
                    )
                    &&& crate::ledger::table_lookup(final(state).spending@, entry.pool_id, entry.user)
                        == crate::ledger::refund_applied(
                        crate::ledger::table_lookup(old(state).spending@, entry.pool_id, entry.user),
                        entry.reserved_fee,
                    )
                    &&& forall|p: PoolId, u: AccountId|
                        !(p == entry.pool_id && u == entry.user)
                            ==> #[trigger] crate::ledger::table_lookup(final(state).spending@, p, u)
                            == crate::ledger::table_lookup(old(state).spending@, p, u)
                    &&& final(state).tracker.pending@ == old(state).tracker.pending@.remove(
                        old(state).tracker.pending_index(transaction_id),
                    )
                } else {
                    &&& final(state).pools@ == old(state).pools@
                    &&& final(state).spending@ == old(state).spending@
                    &&& final(state).tracker.pending@ == old(state).tracker.pending@
                })
                &&& final(state).tracker.log@ == (if old(state).tracker.has_record(transaction_id)
                    && !is_terminal(old(state).tracker.record_at(transaction_id).status) {
                    old(state).tracker.log@.update(
                        transaction_id as int,
                        with_status(
                            old(state).tracker.record_at(transaction_id),
                            TransactionStatus::Failed,
                        ),
                    )
                } else {
                    old(state).tracker.log@
                })
            },
    {
        let should_retry = match error {
            XcmGatewayError::DeliveryTimeout => true,
            XcmGatewayError::ExecutionFailed => true,
            XcmGatewayError::UnsupportedDestination => false,
            XcmGatewayError::MessageFormatError => false,
            _ => true,
        };
        if should_retry {
            match crate::retry::RetryHandler::retry_transaction(
                &mut state.tracker,
                transaction_id,
                0,
                now,
            ) {
                Ok(_) => {},
                Err(_) => {},
            }
        } else {
            match state.tracker.find_pending(transaction_id) {
                Some(idx) => {
                    let pool_id = state.tracker.pending[idx].pool_id;
                    let user = state.tracker.pending[idx].user;
                    let reserved = state.tracker.pending[idx].reserved_fee;
                    crate::receipt::ReceiptProcessor::refund_unused_gas(
                        state,
                        pool_id,
                        user,
                        reserved,
                    );
                    state.tracker.remove_pending(transaction_id);
                    match state.tracker.mark_failed(transaction_id) {
                        Ok(_) => {},
                        Err(_) => {},
                    }
                },
                None => {
                    match state.tracker.mark_failed(transaction_id) {
                        Ok(_) => {},
                        Err(_) => {},
                    }
                },
            }
        }
        Ok(())
    }

    /// Periodic maintenance: run the retry sweep over the pending index.
    pub fn process_maintenance(state: &mut Pallet, now: BlockNumber) -> (r: Result<
        (),
        XcmGatewayError,
    >)
        requires
            old(state).wf(),
        ensures
            final(state).wf(),
            r == Ok::<(), XcmGatewayError>(()),
            final(state).auths@ == old(state).auths@,
            final(state).events@ == old(state).events@,
            final(state).funded@ == old(state).funded@,
            final(state).pools@.len() == old(state).pools@.len(),
            forall|p: int|
                0 <= p < old(state).pools@.len() ==> crate::retry::pool_settle_related(
                    #[trigger] old(state).pools@[p],
                    final(state).pools@[p],
                ),
            crate::retry::log_failed_related(old(state).tracker.log@, final(state).tracker.log@),
            final(state).tracker.pending@.len() <= old(state).tracker.pending@.len(),
            forall|j: int|
                0 <= j < final(state).tracker.pending@.len() ==> !crate::tracker::retry_candidate(
                    #[trigger] final(state).tracker.pending@[j],
                    now,
                    crate::retry::MAX_PENDING_AGE_BLOCKS,
                ),
    {
        match crate::retry::RetryHandler::process_retry_queue(state, now) {
            Ok(_) => Ok(()),
            Err(_) => Ok(()),
        }
    }
}

/// Whether a dispatch failure is worth a resubmission. Unknown destinations
/// and malformed messages are permanent; everything else is transient.
pub open spec fn is_retryable(error: XcmGatewayError) -> bool {
    !(error == XcmGatewayError::UnsupportedDestination || error
        == XcmGatewayError::MessageFormatError)
}

} // verus!
