//! Fee estimation for sponsored cross-chain calls.
//!
//! The estimate is a pure function of the destination domain and the payload
//! length: a fixed per-destination base fee plus a per-byte fee. It is the
//! canonical figure used both for the up-front reservation and for
//! user-facing cost queries, so repeated queries are stable by construction.

use vstd::prelude::*;
use crate::message::XcmGatewayError;

verus! {

/// Fee charged per byte of call data, in the smallest balance unit.
pub const PER_BYTE_FEE: u128 = 2;

/// Base of the coarse size-based estimate used when a destination has no
/// entry in the fee table.
pub const FALLBACK_BASE_FEE: u128 = 1000;

/// Per-byte part of the coarse size-based estimate.
pub const FALLBACK_PER_BYTE_FEE: u128 = 10;

/// The coarse size-based estimate for an unknown destination.
pub open spec fn fallback_fee_of(len: int) -> int {
    FALLBACK_BASE_FEE + FALLBACK_PER_BYTE_FEE * len
}

/// Whether the destination domain has an entry in the base-fee table.
pub open spec fn chain_supported(target_chain: u32) -> bool {
    target_chain == 2000 || target_chain == 2006 || target_chain == 2012 || target_chain == 2030
}

/// Base fee of a destination domain; meaningful only when the domain is
/// supported.
pub open spec fn base_fee_of(target_chain: u32) -> u128 {
    if target_chain == 2000 {
        1000u128
    } else if target_chain == 2006 {
        800u128
    } else if target_chain == 2012 {
        1200u128
    } else if target_chain == 2030 {
        900u128
    } else {
        0u128
    }
}

/// The canonical fee estimate for a supported destination: its base fee plus
/// the per-byte fee for the payload.
pub open spec fn estimate_of(target_chain: u32, call_data: Seq<u8>) -> int {
    base_fee_of(target_chain) + PER_BYTE_FEE * call_data.len()
}

/// Fee estimation is deterministic: for one destination, payloads of equal
/// length always receive the same estimate, so repeated queries are stable
/// and a cost query agrees with the fee a sponsorship reserves.
pub proof fn lemma_estimate_deterministic(target_chain: u32, a: Seq<u8>, b: Seq<u8>)
    requires
        a.len() == b.len(),
    ensures
        estimate_of(target_chain, a) == estimate_of(target_chain, b),
{
}

/// Fee estimator for cross-chain transactions.
pub struct FeeEstimator;

impl FeeEstimator {
    /// Estimate the fee for executing `call_data` on `target_chain`.
    ///
    /// Succeeds exactly on the destinations of the base-fee table; the
    /// result is base fee plus per-byte fee, a deterministic function of the
    /// destination and the payload length alone.
    pub fn estimate_fee(target_chain: u32, call_data: &[u8]) -> (r: Result<
        u128,
        XcmGatewayError,
    >)
        ensures
            match r {
                Ok(fee) => chain_supported(target_chain) && fee == estimate_of(
                    target_chain,
                    call_data@,
                ),
                Err(e) => !chain_supported(target_chain)
                    && e == XcmGatewayError::UnsupportedDestination,
            },
    {
        let base_fee = match Self::get_base_fee(target_chain) {
            Ok(b) => b,
            Err(e) => {
                return Err(e);
            },
        };
        let call_fee = Self::calculate_call_fee(call_data);
        Ok(base_fee + call_fee)
    }

    /// Base fee for the destination domain, from a fixed table.
    fn get_base_fee(target_chain: u32) -> (r: Result<u128, XcmGatewayError>)
        ensures
            match r {
                Ok(b) => chain_supported(target_chain) && b == base_fee_of(target_chain),
                Err(e) => !chain_supported(target_chain)
                    && e == XcmGatewayError::UnsupportedDestination,
            },
    {
        if target_chain == 2000 {
            Ok(1000)
        } else if target_chain == 2006 {
            Ok(800)
        } else if target_chain == 2012 {
            Ok(1200)
        } else if target_chain == 2030 {
            Ok(900)
        } else {
            Err(XcmGatewayError::UnsupportedDestination)
        }
    }

    /// Size-dependent part of the fee: the per-byte fee for every payload
    /// byte.
    fn calculate_call_fee(call_data: &[u8]) -> (r: u128)
        ensures
            r == PER_BYTE_FEE * call_data@.len(),
            call_data@.len() <= usize::MAX,
    {
        let size: u128 = call_data.len() as u128;
        size * PER_BYTE_FEE
    }
}

} // verus!
