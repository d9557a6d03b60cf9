use pallet_sponsorship::fees::FeeEstimator;
use pallet_sponsorship::gateway::XcmGateway;
use pallet_sponsorship::ledger::Pallet;
use pallet_sponsorship::message::{
    DemoXcmMessage, ValidationResult, XcmDispatcher, XcmGatewayError, XcmMessageBuilder,
    XcmMessageValidator,
};
use pallet_sponsorship::retry::RetryHandler;
use pallet_sponsorship::tracker::TransactionTracker;
use pallet_sponsorship::types::PoolConfig;

#[test]
fn test_build_demo_message() {
    let call_data = vec![1, 2, 3, 4];
    let max_fee = 1000u128;
    let pool_id = 1;
    let transaction_id = 1;

    let result = XcmMessageBuilder::build_demo_message(
        2006,
        call_data.clone(),
        max_fee,
        pool_id,
        transaction_id,
    );

    assert!(result.is_ok());
    let message = result.unwrap();
    assert_eq!(message.target, 2006);
    assert_eq!(message.call, call_data);
    assert_eq!(message.max_fee, max_fee);
    assert_eq!(message.sponsor, pool_id);
    assert_eq!(message.transaction_id, transaction_id);
}

#[test]
fn test_format_for_astar() {
    let call_data = vec![1, 2, 3, 4];
    let result = XcmMessageBuilder::format_for_astar(call_data, 1000u128, 1, 1);

    assert!(result.is_ok());
    let message = result.unwrap();
    assert_eq!(message.target, 2006);
}

#[test]
fn test_format_for_acala() {
    let call_data = vec![1, 2, 3, 4];
    let result = XcmMessageBuilder::format_for_acala(call_data, 1000u128, 1, 1);

    assert!(result.is_ok());
    let message = result.unwrap();
    assert_eq!(message.target, 2000);
}

#[test]
fn test_validate_message_valid() {
    let message = DemoXcmMessage {
        target: 2006,
        call: vec![1, 2, 3, 4],
        max_fee: 1000u128,
        sponsor: 1,
        transaction_id: 1,
    };

    assert_eq!(XcmMessageValidator::validate_message(&message), ValidationResult::Valid);
}

#[test]
fn test_validate_message_invalid_target() {
    let message = DemoXcmMessage {
        target: 9999,
        call: vec![1, 2, 3, 4],
        max_fee: 1000u128,
        sponsor: 1,
        transaction_id: 1,
    };

    assert_eq!(XcmMessageValidator::validate_message(&message), ValidationResult::InvalidTarget);
}

#[test]
fn test_validate_message_empty_call() {
    let message = DemoXcmMessage {
        target: 2006,
        call: vec![],
        max_fee: 1000u128,
        sponsor: 1,
        transaction_id: 1,
    };

    assert_eq!(XcmMessageValidator::validate_message(&message), ValidationResult::InvalidCallData);
}

#[test]
fn test_fee_estimation() {
    let call_data = vec![1, 2, 3, 4];

    let astar_fee = FeeEstimator::estimate_fee(2006, &call_data);
    assert!(astar_fee.is_ok());
    assert_eq!(astar_fee.unwrap(), 808u128);

    let acala_fee = FeeEstimator::estimate_fee(2000, &call_data);
    assert!(acala_fee.is_ok());
    assert_eq!(acala_fee.unwrap(), 1008u128);
}

#[test]
fn test_unsupported_parachain() {
    let call_data = vec![1, 2, 3, 4];

    let result = FeeEstimator::estimate_fee(9999, &call_data);
    assert_eq!(result, Err(XcmGatewayError::UnsupportedDestination));
}

#[test]
fn test_dispatch_message_success() {
    let message = DemoXcmMessage {
        target: 2006,
        call: vec![1, 2, 3, 4],
        max_fee: 1000u128,
        sponsor: 1,
        transaction_id: 1,
    };

    assert!(XcmDispatcher::dispatch_message(message).is_ok());
}

#[test]
fn test_dispatch_message_invalid_target() {
    let message = DemoXcmMessage {
        target: 9999,
        call: vec![1, 2, 3, 4],
        max_fee: 1000u128,
        sponsor: 1,
        transaction_id: 1,
    };

    assert_eq!(
        XcmDispatcher::dispatch_message(message),
        Err(XcmGatewayError::MessageFormatError)
    );
}

#[test]
fn test_estimate_delivery_time() {
    let acala_time = XcmDispatcher::estimate_delivery_time(2000);
    assert!(acala_time.is_ok());
    assert_eq!(acala_time.unwrap(), 2);

    let astar_time = XcmDispatcher::estimate_delivery_time(2006);
    assert!(astar_time.is_ok());
    assert_eq!(astar_time.unwrap(), 3);

    let invalid_time = XcmDispatcher::estimate_delivery_time(9999);
    assert_eq!(invalid_time, Err(XcmGatewayError::UnsupportedDestination));
}

#[test]
fn test_transaction_tracking() {
    let mut tracker = TransactionTracker::new();

    let result = tracker.add_pending_transaction(1, 1, 1, 2006, &[1, 2, 3, 4], 1000u128, 0);
    assert!(result.is_ok());

    let mark_result = tracker.mark_dispatched(1);
    assert!(mark_result.is_ok());
}

#[test]
fn test_retry_logic() {
    let mut tracker = TransactionTracker::new();

    let retry_result = RetryHandler::retry_transaction(&mut tracker, 1, 0, 0);
    assert!(retry_result.is_ok());
    assert_eq!(retry_result.unwrap(), true);

    let max_retry_result = RetryHandler::retry_transaction(&mut tracker, 1, 5, 0);
    assert!(max_retry_result.is_ok());
    assert_eq!(max_retry_result.unwrap(), false);
}

#[test]
fn test_backoff_calculation() {
    assert_eq!(RetryHandler::calculate_backoff_delay(0), 5);
    assert_eq!(RetryHandler::calculate_backoff_delay(1), 10);
    assert_eq!(RetryHandler::calculate_backoff_delay(2), 20);
    assert_eq!(RetryHandler::calculate_backoff_delay(3), 40);
}

#[test]
fn test_full_cross_chain_flow() {
    let mut state = Pallet::new();
    let config = PoolConfig {
        max_transaction_value: 1000,
        daily_spending_limit: 5000,
        allowed_chains: vec![2006],
        authorization_required: false,
    };
    assert!(state.create_pool(1, 2000, config.clone(), 0).is_ok());
    assert!(state.create_pool(1, 2000, config, 0).is_ok());
    assert!(state.sponsor_transaction(1, 1, 2006, vec![1, 2, 3, 4], 0).is_ok());
    assert!(state.sponsor_transaction(1, 1, 2006, vec![1, 2, 3, 4], 0).is_ok());

    let result = XcmGateway::send_cross_chain_transaction(
        &mut state,
        1,
        1,
        2006,
        vec![1, 2, 3, 4],
        1,
        0,
    );
    assert!(result.is_ok());
}

#[test]
fn test_dispatch_failure_handling() {
    let mut state = Pallet::new();

    let result =
        XcmGateway::handle_dispatch_failure(&mut state, 1, XcmGatewayError::DeliveryTimeout, 0);
    assert!(result.is_ok());
}

#[test]
fn test_maintenance_processing() {
    let mut state = Pallet::new();

    let result = XcmGateway::process_maintenance(&mut state, 0);
    assert!(result.is_ok());
}
