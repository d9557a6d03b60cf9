use pallet_sponsorship::ledger::Pallet;
use pallet_sponsorship::message::{DemoXcmMessage, ValidationResult, XcmMessageValidator};
use pallet_sponsorship::notify::{Notification, UserNotificationSystem};
use pallet_sponsorship::receipt::{
    ExecutionResult, ReceiptProcessingResult, ReceiptProcessor, TransactionReceipt,
};
use pallet_sponsorship::retry::RetryHandler;
use pallet_sponsorship::rpc::SponsorshipRpc;
use pallet_sponsorship::tracker::TransactionTracker;
use pallet_sponsorship::types::{
    AuthorizationRule, AuthorizationType, Error, PoolConfig, PoolStatus, TransactionStatus,
};

fn astar_config(authorization_required: bool) -> PoolConfig {
    PoolConfig {
        max_transaction_value: 1000,
        daily_spending_limit: 5000,
        allowed_chains: vec![2006],
        authorization_required,
    }
}

fn success_receipt(transaction_id: u64, gas_used: u128) -> TransactionReceipt {
    TransactionReceipt {
        transaction_id,
        target_chain: 2006,
        execution_result: ExecutionResult::Success,
        actual_gas_used: gas_used,
        block_hash: vec![1; 32],
        block_number: 1,
        events: vec![],
    }
}

#[test]
fn scenario_pool_creation_assigns_next_id() {
    let mut pallet = Pallet::new();

    let result = pallet.create_pool(1, 2000, astar_config(false), 1);
    assert_eq!(result, Ok(0));
    assert_eq!(pallet.pools(0).unwrap().balance, 2000);
    assert_eq!(pallet.next_pool_id(), 1);
}

#[test]
fn scenario_sponsor_reserves_base_plus_per_byte_fee() {
    let mut pallet = Pallet::new();
    assert!(pallet.create_pool(1, 2000, astar_config(false), 1).is_ok());

    let tx = pallet.sponsor_transaction(0, 2, 2006, vec![1, 2, 3, 4], 1);
    assert_eq!(tx, Ok(0));

    let pool = pallet.pools(0).unwrap();
    assert_eq!(pallet.transaction_log(0).unwrap().gas_cost, 808);
    assert_eq!(pool.balance, 1192);
    assert_eq!(pool.total_spent, 808);
}

#[test]
fn scenario_insufficient_funds_leaves_state_untouched() {
    let mut pallet = Pallet::new();
    assert!(pallet.create_pool(1, 1000, astar_config(false), 1).is_ok());
    assert!(pallet.sponsor_transaction(0, 2, 2006, vec![1, 2, 3, 4], 1).is_ok());

    // The remaining balance no longer covers another 808 reservation; the
    // refused attempt mutates nothing.
    let events_before = pallet.events().len();
    let second = pallet.sponsor_transaction(0, 2, 2006, vec![5, 6, 7, 8], 1);
    assert_eq!(second, Err(Error::InsufficientFunds));

    let pool = pallet.pools(0).unwrap();
    assert_eq!(pool.balance, 192);
    assert_eq!(pool.total_spent, 808);
    assert_eq!(pallet.next_transaction_id(), 1);
    assert_eq!(pallet.events().len(), events_before);
}

#[test]
fn scenario_success_receipt_refunds_difference() {
    let mut pallet = Pallet::new();
    assert!(pallet.create_pool(1, 2000, astar_config(false), 1).is_ok());
    assert!(pallet.sponsor_transaction(0, 2, 2006, vec![1, 2, 3, 4], 1).is_ok());
    assert!(pallet.sponsor_transaction(0, 2, 2006, vec![5, 6, 7, 8], 1).is_ok());
    let balance_before = pallet.pools(0).unwrap().balance;

    let result = ReceiptProcessor::process_receipt(&mut pallet, success_receipt(1, 700), 2);
    assert_eq!(result, Ok(ReceiptProcessingResult::Processed));

    let pool = pallet.pools(0).unwrap();
    assert_eq!(pool.balance, balance_before + 108);
    assert_eq!(pallet.transaction_log(1).unwrap().status, TransactionStatus::Executed);
}

#[test]
fn scenario_expiry_sweep_restores_full_reservation() {
    let mut pallet = Pallet::new();
    assert!(pallet.create_pool(1, 2000, astar_config(false), 1).is_ok());
    assert!(pallet.sponsor_transaction(0, 2, 2006, vec![1, 2, 3, 4], 1).is_ok());
    assert_eq!(pallet.pools(0).unwrap().balance, 1192);

    // The receipt never arrives. Each sweep past the maximum age advances
    // the retry; the one that finds the budget spent force-refunds.
    for now in [200u64, 300, 400, 500] {
        assert!(
            pallet_sponsorship::gateway::XcmGateway::process_maintenance(&mut pallet, now).is_ok()
        );
    }

    let pool = pallet.pools(0).unwrap();
    assert_eq!(pool.balance, 2000);
    assert_eq!(pool.total_spent, 0);
    assert_eq!(pallet.transaction_log(0).unwrap().status, TransactionStatus::Failed);
}

#[test]
fn retry_at_budget_is_exhausted_and_schedules_nothing() {
    let mut tracker = TransactionTracker::new();
    assert!(tracker.add_pending_transaction(7, 0, 2, 2006, &[1, 2, 3, 4], 808, 0).is_ok());

    // Three resubmissions use up the budget.
    for _ in 0..3 {
        assert_eq!(RetryHandler::retry_transaction(&mut tracker, 7, 0, 10), Ok(true));
    }
    assert_eq!(tracker.pending[0].retry_count, 3);

    // At the budget the scheduler gives up and changes nothing.
    assert_eq!(RetryHandler::retry_transaction(&mut tracker, 7, 3, 20), Ok(false));
    assert_eq!(RetryHandler::retry_transaction(&mut tracker, 7, 0, 20), Ok(false));
    assert_eq!(tracker.pending[0].retry_count, 3);
    assert_eq!(tracker.pending[0].last_retry_at, 10);
}

#[test]
fn backoff_doubles_from_base_delay() {
    assert_eq!(RetryHandler::calculate_backoff_delay(0), 5);
    assert_eq!(RetryHandler::calculate_backoff_delay(1), 10);
    assert_eq!(RetryHandler::calculate_backoff_delay(2), 20);
    assert_eq!(RetryHandler::calculate_backoff_delay(3), 40);
    assert!(RetryHandler::is_ready_for_retry(0, 0, 5));
    assert!(!RetryHandler::is_ready_for_retry(0, 1, 5));
    assert!(RetryHandler::is_ready_for_retry(0, 1, 10));
}

#[test]
fn duplicate_receipt_is_a_no_op() {
    let mut pallet = Pallet::new();
    assert!(pallet.create_pool(1, 2000, astar_config(false), 1).is_ok());
    assert!(pallet.sponsor_transaction(0, 2, 2006, vec![1, 2, 3, 4], 1).is_ok());
    assert!(pallet.sponsor_transaction(0, 2, 2006, vec![5, 6, 7, 8], 1).is_ok());

    let first = ReceiptProcessor::process_receipt(&mut pallet, success_receipt(1, 700), 2);
    assert_eq!(first, Ok(ReceiptProcessingResult::Processed));
    let balance_after_first = pallet.pools(0).unwrap().balance;
    let spent_after_first = pallet.pools(0).unwrap().total_spent;

    let second = ReceiptProcessor::process_receipt(&mut pallet, success_receipt(1, 700), 3);
    assert_eq!(second, Ok(ReceiptProcessingResult::AlreadyProcessed));
    assert_eq!(pallet.pools(0).unwrap().balance, balance_after_first);
    assert_eq!(pallet.pools(0).unwrap().total_spent, spent_after_first);
    assert_eq!(pallet.transaction_log(1).unwrap().status, TransactionStatus::Executed);
}

#[test]
fn estimate_is_deterministic_and_matches_reservation() {
    let mut pallet = Pallet::new();
    assert!(pallet.create_pool(1, 2000, astar_config(false), 1).is_ok());

    let quoted = Pallet::estimate_transaction_gas_cost(2006, &[9, 9, 9, 9]);
    let quoted_again = Pallet::estimate_transaction_gas_cost(2006, &[9, 9, 9, 9]);
    assert_eq!(quoted, quoted_again);

    assert!(pallet.sponsor_transaction(0, 2, 2006, vec![9, 9, 9, 9], 1).is_ok());
    assert_eq!(pallet.transaction_log(0).unwrap().gas_cost, quoted);
}

#[test]
fn estimate_falls_back_for_unknown_destination() {
    assert_eq!(Pallet::estimate_transaction_gas_cost(9999, &[1, 2, 3, 4]), 1040);
    assert_eq!(Pallet::estimate_transaction_gas_cost(9999, &[]), 1000);
}

#[test]
fn value_is_conserved_across_a_full_lifecycle() {
    let mut pallet = Pallet::new();
    assert!(pallet.create_pool(1, 2000, astar_config(false), 1).is_ok());
    assert!(pallet.fund_pool(0, 1, 500).is_ok());
    assert!(pallet.sponsor_transaction(0, 2, 2006, vec![1, 2, 3, 4], 1).is_ok());
    assert!(pallet.sponsor_transaction(0, 2, 2006, vec![5, 6, 7, 8], 1).is_ok());
    assert!(ReceiptProcessor::process_receipt(&mut pallet, success_receipt(1, 700), 2).is_ok());

    let pool = pallet.pools(0).unwrap();
    assert_eq!(pool.balance + pool.total_spent, 2500);
}

#[test]
fn whitelist_rule_gates_spenders() {
    let mut pallet = Pallet::new();
    assert!(pallet.create_pool(1, 5000, astar_config(true), 1).is_ok());
    let rule = AuthorizationRule {
        rule_type: AuthorizationType::UserWhitelist,
        data: vec![2u8],
        created_at: 1,
    };
    assert!(pallet.add_authorization_rule(0, 1, rule).is_ok());

    assert_eq!(
        pallet.sponsor_transaction(0, 3, 2006, vec![1, 2, 3, 4], 1),
        Err(Error::UnauthorizedUser)
    );
    assert!(pallet.sponsor_transaction(0, 2, 2006, vec![1, 2, 3, 4], 1).is_ok());
}

#[test]
fn spending_limit_rule_caps_a_user() {
    let mut pallet = Pallet::new();
    assert!(pallet.create_pool(1, 5000, astar_config(true), 1).is_ok());
    // The per-user cap lives in the first eight payload bytes, little
    // endian: 100 is far below the 808 this call costs.
    let rule = AuthorizationRule {
        rule_type: AuthorizationType::SpendingLimit,
        data: vec![100u8],
        created_at: 1,
    };
    assert!(pallet.add_authorization_rule(0, 1, rule).is_ok());

    assert_eq!(
        pallet.sponsor_transaction(0, 2, 2006, vec![1, 2, 3, 4], 1),
        Err(Error::ExceedsSpendingLimit)
    );
    // The refused call left no trace.
    assert_eq!(pallet.pools(0).unwrap().balance, 5000);
    assert_eq!(pallet.next_transaction_id(), 0);
}

#[test]
fn transaction_type_rule_gates_call_categories() {
    let mut pallet = Pallet::new();
    assert!(pallet.create_pool(1, 5000, astar_config(true), 1).is_ok());
    // A call's category is the first byte of its payload.
    let rule = AuthorizationRule {
        rule_type: AuthorizationType::TransactionType,
        data: vec![7u8],
        created_at: 1,
    };
    assert!(pallet.add_authorization_rule(0, 1, rule).is_ok());

    assert!(pallet.sponsor_transaction(0, 2, 2006, vec![7, 2, 3], 1).is_ok());
    assert_eq!(
        pallet.sponsor_transaction(0, 2, 2006, vec![9, 2, 3], 1),
        Err(Error::UnauthorizedUser)
    );
}

#[test]
fn daily_window_resets_after_it_elapses() {
    let mut pallet = Pallet::new();
    assert!(pallet.create_pool(1, 5000, astar_config(false), 1).is_ok());
    assert!(pallet.sponsor_transaction(0, 2, 2006, vec![1, 2, 3, 4], 1).is_ok());

    let first = pallet.user_spending(0, 2);
    assert_eq!(first.total_spent, 808);
    assert_eq!(first.daily_spent, 808);

    assert!(pallet.sponsor_transaction(0, 2, 2006, vec![1, 2, 3, 4], 14401).is_ok());
    let second = pallet.user_spending(0, 2);
    assert_eq!(second.total_spent, 1616);
    assert_eq!(second.daily_spent, 808);
    assert_eq!(second.last_reset, 14401);
}

#[test]
fn oversized_configuration_and_rules_are_refused() {
    let mut pallet = Pallet::new();
    let config = PoolConfig {
        max_transaction_value: 1000,
        daily_spending_limit: 5000,
        allowed_chains: vec![2006; 101],
        authorization_required: false,
    };
    assert_eq!(pallet.create_pool(1, 2000, config, 1), Err(Error::InvalidConfiguration));

    assert!(pallet.create_pool(1, 2000, astar_config(false), 1).is_ok());
    let rule = AuthorizationRule {
        rule_type: AuthorizationType::UserWhitelist,
        data: vec![0u8; 257],
        created_at: 1,
    };
    assert_eq!(pallet.add_authorization_rule(0, 1, rule), Err(Error::InvalidConfiguration));
}

#[test]
fn paused_and_closed_pools_refuse_funding() {
    let mut pallet = Pallet::new();
    assert!(pallet.create_pool(1, 2000, astar_config(false), 1).is_ok());

    pallet.pools[0].status = PoolStatus::Paused;
    assert_eq!(pallet.fund_pool(0, 1, 100), Err(Error::PoolPaused));
    assert_eq!(
        pallet.sponsor_transaction(0, 2, 2006, vec![1, 2, 3, 4], 1),
        Err(Error::PoolPaused)
    );

    pallet.pools[0].status = PoolStatus::Closed;
    assert_eq!(pallet.fund_pool(0, 1, 100), Err(Error::PoolClosed));
}

#[test]
fn excessive_fee_cap_is_refused_by_validation() {
    let message = DemoXcmMessage {
        target: 2006,
        call: vec![1, 2, 3, 4],
        max_fee: 2_000_000_000_000u128,
        sponsor: 0,
        transaction_id: 1,
    };
    assert_eq!(XcmMessageValidator::validate_message(&message), ValidationResult::ExcessiveFee);
}

#[test]
fn payload_hash_is_a_digest_of_the_call() {
    let mut pallet = Pallet::new();
    assert!(pallet.create_pool(1, 2000, astar_config(false), 1).is_ok());
    assert!(pallet.sponsor_transaction(0, 2, 2006, vec![1, 2, 3, 4], 1).is_ok());

    // A 32-byte digest, not the 4-byte payload handed back.
    let record = pallet.transaction_log(0).unwrap();
    assert_eq!(record.call_hash.len(), 32);
    assert_ne!(record.call_hash, vec![1, 2, 3, 4]);
}

#[test]
fn failure_notification_carries_the_error() {
    let result = UserNotificationSystem::notify_transaction_complete(
        &5u64,
        9,
        &ExecutionResult::Failed(b"out of gas".to_vec()),
        0,
    );
    match result.unwrap() {
        Notification::Failure { user, transaction_id, error } => {
            assert_eq!(user, 5);
            assert_eq!(transaction_id, 9);
            assert_eq!(error, b"out of gas".to_vec());
        }
        other => panic!("unexpected notification {:?}", other),
    }
}

#[test]
fn rpc_queries_reflect_the_ledger() {
    let mut pallet = Pallet::new();
    assert!(pallet.create_pool(1, 2000, astar_config(false), 1).is_ok());
    assert!(pallet.create_pool(3, 5000, astar_config(false), 1).is_ok());
    assert!(pallet.sponsor_transaction(0, 2, 2006, vec![1, 2, 3, 4], 1).is_ok());
    assert!(pallet.sponsor_transaction(0, 2, 2006, vec![5, 6, 7, 8], 1).is_ok());
    assert!(ReceiptProcessor::process_receipt(&mut pallet, success_receipt(1, 700), 2).is_ok());

    let rpc = SponsorshipRpc::new(pallet);

    assert_eq!(rpc.get_pool(1).unwrap().owner, 3);
    assert!(rpc.get_pool(9).is_none());

    let owned = rpc.get_pools_by_owner(3);
    assert_eq!(owned.len(), 1);
    assert_eq!(owned[0].0, 1);
    assert_eq!(owned[0].1.balance, 5000);

    let history = rpc.get_transaction_history(0, None);
    assert_eq!(history.len(), 2);
    let limited = rpc.get_transaction_history(0, Some(1));
    assert_eq!(limited.len(), 1);
    assert_eq!(limited[0].id, 0);

    // Only the executed transaction counts as savings.
    assert_eq!(rpc.get_user_gas_savings(2), 808);
    assert_eq!(rpc.estimate_gas_cost(2006, &[1, 2, 3, 4]), 808);
}

#[test]
fn pallet_process_receipt_maps_outcomes_to_results() {
    let mut pallet = Pallet::new();
    assert!(pallet.create_pool(1, 2000, astar_config(false), 1).is_ok());
    assert!(pallet.sponsor_transaction(0, 2, 2006, vec![1, 2, 3, 4], 1).is_ok());
    assert!(pallet.sponsor_transaction(0, 2, 2006, vec![5, 6, 7, 8], 1).is_ok());

    assert_eq!(pallet.process_receipt(success_receipt(1, 700), 2), Ok(()));
    // A duplicate is still accepted: processing is idempotent.
    assert_eq!(pallet.process_receipt(success_receipt(1, 700), 3), Ok(()));

    let mut invalid = success_receipt(1, 700);
    invalid.block_hash = vec![0; 32];
    assert_eq!(pallet.process_receipt(invalid, 4), Err(Error::InvalidConfiguration));
}

#[test]
fn receipt_for_unknown_transaction_is_resolved_conservatively() {
    let mut pallet = Pallet::new();
    assert_eq!(
        ReceiptProcessor::process_receipt(&mut pallet, success_receipt(42, 700), 1),
        Ok(ReceiptProcessingResult::AlreadyProcessed)
    );
}

#[test]
fn timeout_receipts_rearm_until_the_budget_is_spent() {
    let mut pallet = Pallet::new();
    assert!(pallet.create_pool(1, 2000, astar_config(false), 1).is_ok());
    assert!(pallet.sponsor_transaction(0, 2, 2006, vec![1, 2, 3, 4], 1).is_ok());
    assert!(pallet.sponsor_transaction(0, 2, 2006, vec![5, 6, 7, 8], 1).is_ok());
    assert_eq!(pallet.pools(0).unwrap().balance, 384);

    let timeout = |now: u64| TransactionReceipt {
        transaction_id: 1,
        target_chain: 2006,
        execution_result: ExecutionResult::Timeout,
        actual_gas_used: 0,
        block_hash: vec![1; 32],
        block_number: now,
        events: vec![],
    };

    // The first timeout refunds the full reservation and re-arms.
    assert_eq!(
        ReceiptProcessor::process_receipt(&mut pallet, timeout(2), 2),
        Ok(ReceiptProcessingResult::Processed)
    );
    assert_eq!(pallet.pools(0).unwrap().balance, 1192);
    assert_eq!(pallet.transaction_log(1).unwrap().status, TransactionStatus::Dispatched);

    // Further timeouts re-arm with nothing left to refund, until the
    // budget is spent and the transaction ends in `Failed`.
    for now in [3u64, 4] {
        assert_eq!(
            ReceiptProcessor::process_receipt(&mut pallet, timeout(now), now),
            Ok(ReceiptProcessingResult::Processed)
        );
        assert_eq!(pallet.pools(0).unwrap().balance, 1192);
    }
    assert_eq!(
        ReceiptProcessor::process_receipt(&mut pallet, timeout(5), 5),
        Ok(ReceiptProcessingResult::Processed)
    );
    assert_eq!(pallet.transaction_log(1).unwrap().status, TransactionStatus::Failed);
    assert_eq!(pallet.pools(0).unwrap().balance, 1192);
}

#[test]
fn non_retryable_dispatch_failure_settles_with_full_refund() {
    let mut pallet = Pallet::new();
    assert!(pallet.create_pool(1, 2000, astar_config(false), 1).is_ok());
    assert!(pallet.sponsor_transaction(0, 2, 2006, vec![1, 2, 3, 4], 1).is_ok());
    assert_eq!(pallet.pools(0).unwrap().balance, 1192);

    assert!(pallet_sponsorship::gateway::XcmGateway::handle_dispatch_failure(
        &mut pallet,
        0,
        pallet_sponsorship::message::XcmGatewayError::MessageFormatError,
        2,
    )
    .is_ok());

    let pool = pallet.pools(0).unwrap();
    assert_eq!(pool.balance, 2000);
    assert_eq!(pool.total_spent, 0);
    assert_eq!(pallet.transaction_log(0).unwrap().status, TransactionStatus::Failed);
}

#[test]
fn reconciliation_for_an_unknown_pool_is_refused() {
    let mut pallet = Pallet::new();
    assert_eq!(
        pallet_sponsorship::receipt::PoolBalanceUpdater::update_for_actual_consumption(
            &mut pallet,
            7,
            1000,
            800,
        ),
        Err(pallet_sponsorship::message::XcmGatewayError::ReceiptProcessingError)
    );
}

#[test]
fn per_chain_call_data_validation_accepts_known_destinations() {
    assert_eq!(
        XcmMessageValidator::validate_call_data_for_chain(2000, &[1, 2]),
        ValidationResult::Valid
    );
    assert_eq!(
        XcmMessageValidator::validate_call_data_for_chain(2006, &[1, 2]),
        ValidationResult::Valid
    );
    assert_eq!(
        XcmMessageValidator::validate_call_data_for_chain(2012, &[1, 2]),
        ValidationResult::InvalidTarget
    );
}
