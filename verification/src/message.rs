//! Outbound cross-chain messages: construction, validation and dispatch
//! handoff.
//!
//! A message carries the destination domain, the raw call payload, the fee
//! cap, the sponsoring pool and the transaction id. Validation is pure and
//! side-effect-free; the dispatcher validates and then hands the message to
//! the external transport, reporting the handoff alone, never remote
//! execution.

use vstd::prelude::*;
use crate::fees::chain_supported;
use crate::types::{Balance, PoolId};

verus! {

/// Largest call payload accepted in an outbound message, in bytes.
pub const MAX_CALL_DATA: usize = 1024;

/// Sanity ceiling on the fee cap of an outbound message.
pub const FEE_SANITY_CEILING: u128 = 1_000_000_000_000;

/// Destination domain of the Astar parachain.
pub const ASTAR_PARA_ID: u32 = 2006;

/// Destination domain of the Acala parachain.
pub const ACALA_PARA_ID: u32 = 2000;

/// Failures of the gateway: building, validating, estimating for or handing
/// off a cross-chain message, and processing its receipt.
#[derive(Clone, Copy, Debug, PartialEq, Eq, Structural)]
pub enum XcmGatewayError {
    MessageFormatError,
    UnsupportedDestination,
    FeeEstimationFailed,
    DeliveryTimeout,
    ExecutionFailed,
    ReceiptProcessingError,
}

/// Outbound cross-chain message.
#[derive(Clone, Debug, PartialEq, Eq)]
pub struct DemoXcmMessage {
    /// Target destination domain.
    pub target: u32,
    /// Raw call data to execute.
    pub call: Vec<u8>,
    /// Maximum fee willing to pay.
    pub max_fee: Balance,
    /// Reference to the sponsoring pool.
    pub sponsor: PoolId,
    /// Transaction id for tracking.
    pub transaction_id: u64,
}

/// Message validation result.
#[derive(Clone, Copy, Debug, PartialEq, Eq, Structural)]
pub enum ValidationResult {
    Valid,
    InvalidTarget,
    InvalidCallData,
    ExcessiveFee,
    UnsupportedVersion,
}

/// Whether a destination id lies in the range the validator accepts.
pub open spec fn valid_target(para_id: u32) -> bool {
    2000 <= para_id <= 2100
}

/// The verdict of message validation: target range first, then payload
/// bounds, then the fee-cap ceiling.
pub open spec fn validate_message_spec(message: DemoXcmMessage) -> ValidationResult {
    if !valid_target(message.target) {
        ValidationResult::InvalidTarget
    } else if message.call@.len() == 0 || message.call@.len() > MAX_CALL_DATA {
        ValidationResult::InvalidCallData
    } else if message.max_fee > FEE_SANITY_CEILING {
        ValidationResult::ExcessiveFee
    } else {
        ValidationResult::Valid
    }
}

/// Builder of outbound cross-chain messages.
pub struct XcmMessageBuilder;

impl XcmMessageBuilder {
    /// Assemble a message from its parts, rejecting oversized payloads.
    pub fn build_demo_message(
        target_parachain: u32,
        call_data: Vec<u8>,
        max_fee: Balance,
        pool_id: PoolId,
        transaction_id: u64,
    ) -> (r: Result<DemoXcmMessage, XcmGatewayError>)
        ensures
            match r {
                Ok(m) => {
                    &&& call_data@.len() <= MAX_CALL_DATA
                    &&& m.target == target_parachain
                    &&& m.call@ == call_data@
                    &&& m.max_fee == max_fee
                    &&& m.sponsor == pool_id
                    &&& m.transaction_id == transaction_id
                },
                Err(e) => call_data@.len() > MAX_CALL_DATA && e
                    == XcmGatewayError::MessageFormatError,
            },
    {
        if call_data.len() > MAX_CALL_DATA {
            return Err(XcmGatewayError::MessageFormatError);
        }
        Ok(
            DemoXcmMessage {
                target: target_parachain,
                call: call_data,
                max_fee,
                sponsor: pool_id,
                transaction_id,
            },
        )
    }

    /// Format a message for the Astar parachain.
    pub fn format_for_astar(
        call_data: Vec<u8>,
        max_fee: Balance,
        pool_id: PoolId,
        transaction_id: u64,
    ) -> (r: Result<DemoXcmMessage, XcmGatewayError>)
        ensures
            match r {
                Ok(m) => {
                    &&& call_data@.len() <= MAX_CALL_DATA
                    &&& m.target == ASTAR_PARA_ID
                    &&& m.call@ == call_data@
                    &&& m.max_fee == max_fee
                    &&& m.sponsor == pool_id
                    &&& m.transaction_id == transaction_id
                },
                Err(e) => call_data@.len() > MAX_CALL_DATA && e
                    == XcmGatewayError::MessageFormatError,
            },
    {
        Self::build_demo_message(ASTAR_PARA_ID, call_data, max_fee, pool_id, transaction_id)
    }

    /// Format a message for the Acala parachain.
    pub fn format_for_acala(
        call_data: Vec<u8>,
        max_fee: Balance,
        pool_id: PoolId,
        transaction_id: u64,
    ) -> (r: Result<DemoXcmMessage, XcmGatewayError>)
        ensures
            match r {
                Ok(m) => {
                    &&& call_data@.len() <= MAX_CALL_DATA
                    &&& m.target == ACALA_PARA_ID
                    &&& m.call@ == call_data@
                    &&& m.max_fee == max_fee
                    &&& m.sponsor == pool_id
                    &&& m.transaction_id == transaction_id
                },
                Err(e) => call_data@.len() > MAX_CALL_DATA && e
                    == XcmGatewayError::MessageFormatError,
            },
    {
        Self::build_demo_message(ACALA_PARA_ID, call_data, max_fee, pool_id, transaction_id)
    }

    /// Format a message for any destination with dispatch support; the
    /// supported destinations are exactly those of the fee table.
    pub fn format_for_parachain(
        target_parachain: u32,
        call_data: Vec<u8>,
        max_fee: Balance,
        pool_id: PoolId,
        transaction_id: u64,
    ) -> (r: Result<DemoXcmMessage, XcmGatewayError>)
        ensures
            match r {
                Ok(m) => {
                    &&& chain_supported(target_parachain)
                    &&& call_data@.len() <= MAX_CALL_DATA
                    &&& m.target == target_parachain
                    &&& m.call@ == call_data@
                    &&& m.max_fee == max_fee
                    &&& m.sponsor == pool_id
                    &&& m.transaction_id == transaction_id
                },
                Err(e) => if !chain_supported(target_parachain) {
                    e == XcmGatewayError::UnsupportedDestination
                } else {
                    call_data@.len() > MAX_CALL_DATA && e == XcmGatewayError::MessageFormatError
                },
            },
    {
        if !Self::is_supported_parachain(target_parachain) {
            return Err(XcmGatewayError::UnsupportedDestination);
        }
        Self::build_demo_message(target_parachain, call_data, max_fee, pool_id, transaction_id)
    }

    /// Whether the destination has dispatch support.
    fn is_supported_parachain(para_id: u32) -> (r: bool)
        ensures
            r == chain_supported(para_id),
    {
        para_id == 2000 || para_id == 2006 || para_id == 2012 || para_id == 2030
    }
}

/// Validator of outbound messages; pure and side-effect-free.
pub struct XcmMessageValidator;

impl XcmMessageValidator {
    /// Validate a message before dispatch.
    pub fn validate_message(message: &DemoXcmMessage) -> (r: ValidationResult)
        ensures
            r == validate_message_spec(*message),
    {
        if !Self::is_valid_target(message.target) {
            return ValidationResult::InvalidTarget;
        }
        if message.call.len() == 0 || message.call.len() > MAX_CALL_DATA {
            return ValidationResult::InvalidCallData;
        }
        if Self::is_excessive_fee(message.max_fee) {
            return ValidationResult::ExcessiveFee;
        }
        ValidationResult::Valid
    }

    /// Validate raw call data against the per-destination rules; every
    /// destination with such rules accepts any payload.
    pub fn validate_call_data_for_chain(target_chain: u32, call_data: &[u8]) -> (r:
        ValidationResult)
        ensures
            r == if target_chain == ACALA_PARA_ID || target_chain == ASTAR_PARA_ID {
                ValidationResult::Valid
            } else {
                ValidationResult::InvalidTarget
            },
    {
        if target_chain == ACALA_PARA_ID {
            Self::validate_acala_call(call_data)
        } else if target_chain == ASTAR_PARA_ID {
            Self::validate_astar_call(call_data)
        } else {
            ValidationResult::InvalidTarget
        }
    }

    /// Whether the destination id lies in the accepted range.
    fn is_valid_target(para_id: u32) -> (r: bool)
        ensures
            r == valid_target(para_id),
    {
        2000 <= para_id && para_id <= 2100
    }

    /// Whether the fee cap exceeds the sanity ceiling.
    fn is_excessive_fee(fee: Balance) -> (r: bool)
        ensures
            r == (fee > FEE_SANITY_CEILING),
    {
        fee > FEE_SANITY_CEILING
    }

    /// Acala accepts any call payload.
    fn validate_acala_call(_call_data: &[u8]) -> (r: ValidationResult)
        ensures
            r == ValidationResult::Valid,
    {
        ValidationResult::Valid
    }

    /// Astar accepts any call payload.
    fn validate_astar_call(_call_data: &[u8]) -> (r: ValidationResult)
        ensures
            r == ValidationResult::Valid,
    {
        ValidationResult::Valid
    }
}

/// Dispatcher: validates a message and hands it to the external transport.
pub struct XcmDispatcher;

impl XcmDispatcher {
    /// Dispatch a message for cross-chain execution. Success reports only
    /// that the handoff was accepted, not that remote execution occurred;
    /// the handoff is accepted for every message that validates.
    pub fn dispatch_message(message: DemoXcmMessage) -> (r: Result<(), XcmGatewayError>)
        ensures
            match r {
                Ok(_) => validate_message_spec(message) == ValidationResult::Valid,
                Err(e) => validate_message_spec(message) != ValidationResult::Valid && e
                    == XcmGatewayError::MessageFormatError,
            },
    {
        let validation_result = XcmMessageValidator::validate_message(&message);
        if validation_result != ValidationResult::Valid {
            return Err(XcmGatewayError::MessageFormatError);
        }
        Ok(())
    }

    /// Expected delivery time to the destination, in blocks.
    pub fn estimate_delivery_time(target_chain: u32) -> (r: Result<u32, XcmGatewayError>)
        ensures
            match r {
                Ok(blocks) => chain_supported(target_chain) && blocks == delivery_time_of(
                    target_chain,
                ),
                Err(e) => !chain_supported(target_chain)
                    && e == XcmGatewayError::UnsupportedDestination,
            },
    {
        if target_chain == 2000 {
            Ok(2)
        } else if target_chain == 2006 {
            Ok(3)
        } else if target_chain == 2012 {
            Ok(2)
        } else if target_chain == 2030 {
            Ok(3)
        } else {
            Err(XcmGatewayError::UnsupportedDestination)
        }
    }
}

/// Delivery time table; meaningful only for supported destinations.
pub open spec fn delivery_time_of(target_chain: u32) -> u32 {
    if target_chain == 2000 {
        2u32
    } else if target_chain == 2006 {
        3u32
    } else if target_chain == 2012 {
        2u32
    } else if target_chain == 2030 {
        3u32
    } else {
        0u32
    }
}

} // verus!
