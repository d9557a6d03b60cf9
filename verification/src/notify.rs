//! Stateless fan-out of terminal outcomes to observers.

use vstd::prelude::*;
use crate::message::XcmGatewayError;
use crate::receipt::ExecutionResult;
use crate::types::{copy_u8_vec, AccountId, Balance};

verus! {

/// A notification of one terminal outcome, ready to hand to observers.
#[derive(Clone, Debug, PartialEq, Eq)]
pub enum Notification {
    Success { user: AccountId, transaction_id: u64, gas_saved: Balance },
    Failure { user: AccountId, transaction_id: u64, error: Vec<u8> },
    Timeout { user: AccountId, transaction_id: u64 },
    InsufficientFunds { user: AccountId, transaction_id: u64 },
}

/// Whether a notification reports the given outcome for the given user and
/// transaction.
pub open spec fn notification_matches(
    n: Notification,
    user: AccountId,
    transaction_id: u64,
    result: ExecutionResult,
    gas_saved: Balance,
) -> bool {
    match result {
        ExecutionResult::Success => n == (Notification::Success {
            user,
            transaction_id,
            gas_saved,
        }),
        ExecutionResult::Failed(error) => match n {
            Notification::Failure { user: u, transaction_id: t, error: e } => u == user && t
                == transaction_id && e@ == error@,
            _ => false,
        },
        ExecutionResult::Timeout => n == (Notification::Timeout { user, transaction_id }),
        ExecutionResult::InsufficientFunds => n == (Notification::InsufficientFunds {
            user,
            transaction_id,
        }),
    }
}

/// Builds notifications of terminal transaction outcomes.
pub struct UserNotificationSystem;

impl UserNotificationSystem {
    /// Build the notification of a completed transaction from its execution
    /// result.
    pub fn notify_transaction_complete(
        user: &AccountId,
        transaction_id: u64,
        result: &ExecutionResult,
        gas_saved: Balance,
    ) -> (r: Result<Notification, XcmGatewayError>)
        ensures
            match r {
                Ok(n) => notification_matches(n, *user, transaction_id, *result, gas_saved),
                Err(_) => false,
            },
    {
        match result {
            ExecutionResult::Success => Ok(
                Self::send_success_notification(user, transaction_id, gas_saved),
            ),
            ExecutionResult::Failed(error) => Ok(
                Self::send_failure_notification(user, transaction_id, error),
            ),
            ExecutionResult::Timeout => Ok(Self::send_timeout_notification(user, transaction_id)),
            ExecutionResult::InsufficientFunds => Ok(
                Self::send_insufficient_funds_notification(user, transaction_id),
            ),
        }
    }

    /// The success notification, carrying the gas saved against the
    /// reservation.
    fn send_success_notification(user: &AccountId, transaction_id: u64, gas_saved: Balance) -> (r:
        Notification)
        ensures
            r == (Notification::Success { user: *user, transaction_id, gas_saved }),
    {
        Notification::Success { user: *user, transaction_id, gas_saved }
    }

    /// The failure notification, carrying the reported error bytes.
    fn send_failure_notification(user: &AccountId, transaction_id: u64, error: &Vec<u8>) -> (r:
        Notification)
        ensures
            match r {
                Notification::Failure { user: u, transaction_id: t, error: e } => u == *user && t
                    == transaction_id && e@ == error@,
                _ => false,
            },
    {
        Notification::Failure { user: *user, transaction_id, error: copy_u8_vec(error) }
    }

    /// The timeout notification.
    fn send_timeout_notification(user: &AccountId, transaction_id: u64) -> (r: Notification)
        ensures
            r == (Notification::Timeout { user: *user, transaction_id }),
    {
        Notification::Timeout { user: *user, transaction_id }
    }

    /// The out-of-funds notification: an anomaly worth operational
    /// alerting, since the estimator should reserve enough.
    fn send_insufficient_funds_notification(user: &AccountId, transaction_id: u64) -> (r:
        Notification)
        ensures
            r == (Notification::InsufficientFunds { user: *user, transaction_id }),
    {
        Notification::InsufficientFunds { user: *user, transaction_id }
    }

    /// Account a saved amount to a user; the saved amount itself is the
    /// running figure the caller keeps.
    pub fn update_gas_savings(user: &AccountId, saved_amount: Balance) -> (r: Result<
        Balance,
        XcmGatewayError,
    >)
        ensures
            r == Ok::<Balance, XcmGatewayError>(saved_amount),
    {
        let _ = user;
        Ok(saved_amount)
    }
}

} // verus!
