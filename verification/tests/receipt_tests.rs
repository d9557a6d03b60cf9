use pallet_sponsorship::ledger::Pallet;
use pallet_sponsorship::notify::UserNotificationSystem;
use pallet_sponsorship::receipt::{
    ExecutionResult, PoolBalanceUpdater, ReceiptProcessingResult, ReceiptProcessor,
    TransactionReceipt,
};
use pallet_sponsorship::types::PoolConfig;

fn create_test_receipt(
    transaction_id: u64,
    result: ExecutionResult,
    gas_used: u128,
) -> TransactionReceipt {
    TransactionReceipt {
        transaction_id,
        target_chain: 2006,
        execution_result: result,
        actual_gas_used: gas_used,
        block_hash: vec![1; 32],
        block_number: 1,
        events: vec![],
    }
}

/// A ledger with one pool and two dispatched sponsored calls (ids 0 and 1,
/// each reserving 808), so a receipt for transaction 1 finds real state.
fn sponsored_pallet() -> Pallet {
    let mut pallet = Pallet::new();
    let config = PoolConfig {
        max_transaction_value: 1000,
        daily_spending_limit: 5000,
        allowed_chains: vec![2006],
        authorization_required: false,
    };
    assert!(pallet.create_pool(1, 3000, config, 1).is_ok());
    assert!(pallet.sponsor_transaction(0, 2, 2006, vec![1, 2, 3, 4], 1).is_ok());
    assert!(pallet.sponsor_transaction(0, 2, 2006, vec![5, 6, 7, 8], 1).is_ok());
    pallet
}

#[test]
fn test_process_successful_receipt() {
    let mut state = sponsored_pallet();
    let receipt = create_test_receipt(1, ExecutionResult::Success, 800);

    let result = ReceiptProcessor::process_receipt(&mut state, receipt, 2);
    assert!(result.is_ok());
    assert_eq!(result.unwrap(), ReceiptProcessingResult::Processed);
}

#[test]
fn test_process_failed_receipt() {
    let mut state = sponsored_pallet();
    let error_msg = b"execution failed".to_vec();
    let receipt = create_test_receipt(1, ExecutionResult::Failed(error_msg), 0);

    let result = ReceiptProcessor::process_receipt(&mut state, receipt, 2);
    assert!(result.is_ok());
    assert_eq!(result.unwrap(), ReceiptProcessingResult::Processed);
}

#[test]
fn test_process_timeout_receipt() {
    let mut state = sponsored_pallet();
    let receipt = create_test_receipt(1, ExecutionResult::Timeout, 0);

    let result = ReceiptProcessor::process_receipt(&mut state, receipt, 2);
    assert!(result.is_ok());
    assert_eq!(result.unwrap(), ReceiptProcessingResult::Processed);
}

#[test]
fn test_invalid_receipt() {
    let mut state = sponsored_pallet();
    let mut receipt = create_test_receipt(0, ExecutionResult::Success, 800);
    receipt.block_hash = vec![0; 32];

    let result = ReceiptProcessor::process_receipt(&mut state, receipt, 2);
    assert!(result.is_ok());
    assert_eq!(result.unwrap(), ReceiptProcessingResult::InvalidReceipt);
}

#[test]
fn test_pool_balance_update() {
    let mut state = sponsored_pallet();
    let second = PoolConfig {
        max_transaction_value: 1000,
        daily_spending_limit: 5000,
        allowed_chains: vec![2006],
        authorization_required: false,
    };
    assert!(state.create_pool(1, 2000, second, 1).is_ok());
    assert!(state.sponsor_transaction(1, 2, 2006, vec![1, 2, 3, 4], 1).is_ok());

    let result = PoolBalanceUpdater::update_for_actual_consumption(&mut state, 1, 1000, 800);
    assert!(result.is_ok());
    assert_eq!(result.unwrap(), 200u128);
}

#[test]
fn test_pool_balance_update_overspend() {
    let mut state = sponsored_pallet();
    let second = PoolConfig {
        max_transaction_value: 1000,
        daily_spending_limit: 5000,
        allowed_chains: vec![2006],
        authorization_required: false,
    };
    assert!(state.create_pool(1, 2000, second, 1).is_ok());

    let result = PoolBalanceUpdater::update_for_actual_consumption(&mut state, 1, 800, 1000);
    assert!(result.is_ok());
    assert_eq!(result.unwrap(), 0u128);
}

#[test]
fn test_full_refund() {
    let mut state = sponsored_pallet();
    let second = PoolConfig {
        max_transaction_value: 1000,
        daily_spending_limit: 5000,
        allowed_chains: vec![2006],
        authorization_required: false,
    };
    assert!(state.create_pool(1, 2000, second, 1).is_ok());

    let result = PoolBalanceUpdater::refund_full_amount(&mut state, 1, 1000u128);
    assert!(result.is_ok());
}

#[test]
fn test_user_notifications() {
    let user = 1u64;
    let transaction_id = 1u64;
    let gas_saved = 200u128;

    let result = UserNotificationSystem::notify_transaction_complete(
        &user,
        transaction_id,
        &ExecutionResult::Success,
        gas_saved,
    );
    assert!(result.is_ok());
}

#[test]
fn test_gas_savings_update() {
    let user = 1u64;
    let saved_amount = 200u128;

    let result = UserNotificationSystem::update_gas_savings(&user, saved_amount);
    assert!(result.is_ok());
    assert_eq!(result.unwrap(), saved_amount);
}

#[test]
fn test_receipt_validation() {
    let valid_receipt = create_test_receipt(1, ExecutionResult::Success, 800);
    assert!(ReceiptProcessor::validate_receipt(&valid_receipt));

    let invalid_receipt = create_test_receipt(0, ExecutionResult::Success, 800);
    assert!(!ReceiptProcessor::validate_receipt(&invalid_receipt));
}
