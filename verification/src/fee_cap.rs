//! The fee cap estimate: the base fee as it may stand after a number of
//! blocks of steepest growth, plus the premium.

use vstd::prelude::*;
use num_bigint::BigInt;
use crate::bigint::{
    big_add,
    big_div,
    big_from_i64,
    big_mul,
    big_option_value,
    big_result_value,
    big_value,
    truncated_quotient,
};
use crate::error::EstimationError;
use crate::params::GROWTH_ONE;

verus! {

/// The fee cap for a parent base fee, a growth factor with
/// `GROWTH_PRECISION` binary digits behind the point, and a premium.
pub open spec fn fee_cap(parent_base_fee: int, growth: int, gas_premium: int) -> int {
    truncated_quotient(parent_base_fee * growth, GROWTH_ONE as int) + gas_premium
}

/// The fee cap estimate: a `ChainStateUnavailable` error without a parent
/// base fee, a `NumericConversion` error without a growth factor, else the
/// fee cap.
pub open spec fn fee_cap_estimate(
    parent_base_fee: Option<int>,
    growth: Option<int>,
    gas_premium: int,
) -> Result<int, EstimationError> {
    match (parent_base_fee, growth) {
        (None, _) => Err(EstimationError::ChainStateUnavailable),
        (Some(_), None) => Err(EstimationError::NumericConversion),
        (Some(base), Some(factor)) => Ok(fee_cap(base, factor, gas_premium)),
    }
}

/// Estimates the fee cap of a message with the given premium.
///
/// `parent_base_fee` is the base fee of the heaviest tipset, absent where
/// there is no such tipset. `growth` is the factor by which the base fee may
/// grow while the message waits, as a fixed-point integer, absent where the
/// factor could not be turned into one.
///
/// Fails with `ChainStateUnavailable` without a base fee and with
/// `NumericConversion` without a growth factor.
pub fn estimate_fee_cap(
    parent_base_fee: Option<BigInt>,
    growth: Option<BigInt>,
    gas_premium: &BigInt,
) -> (r: Result<BigInt, EstimationError>)
    ensures
        big_result_value(r) == fee_cap_estimate(
            big_option_value(parent_base_fee),
            big_option_value(growth),
            big_value(*gas_premium),
        ),
{
    let base = match parent_base_fee {
        Some(base) => base,
        None => {
            return Err(EstimationError::ChainStateUnavailable);
        },
    };
    let factor = match growth {
        Some(factor) => factor,
        None => {
            return Err(EstimationError::NumericConversion);
        },
    };
    let grown = big_mul(&base, &factor);
    let one = big_from_i64(GROWTH_ONE);
    let fee_in_future = big_div(&grown, &one);
    Ok(big_add(&fee_in_future, gas_premium))
}

/// With a growth factor of one, the fee cap is the parent base fee plus the
/// premium.
pub proof fn lemma_fee_cap_without_growth(parent_base_fee: int, gas_premium: int)
    ensures
        fee_cap(parent_base_fee, GROWTH_ONE as int, gas_premium) == parent_base_fee + gas_premium,
{
    if parent_base_fee >= 0 {
        assert((parent_base_fee * 256) / 256 == parent_base_fee);
    } else {
        assert((-(parent_base_fee * 256)) / 256 == -parent_base_fee);
    }
}

/// The fee cap is above zero whenever the premium is, for a base fee and a
/// growth factor that are not negative.
pub proof fn lemma_fee_cap_is_positive(parent_base_fee: int, growth: int, gas_premium: int)
    requires
        parent_base_fee >= 0,
        growth >= 0,
        gas_premium > 0,
    ensures
        fee_cap(parent_base_fee, growth, gas_premium) >= gas_premium,
        fee_cap(parent_base_fee, growth, gas_premium) > 0,
{
    assert(parent_base_fee * growth >= 0) by (nonlinear_arith)
        requires
            parent_base_fee >= 0,
            growth >= 0,
    ;
}

} // verus!
