use gas_engine::error::EstimationError;
use gas_engine::fee_cap::estimate_fee_cap;
use num_bigint::BigInt;
use num_traits::FromPrimitive;

/// The growth factor as the node computes it: the steepest rise of the base
/// fee over `max_queue_blocks` blocks, with eight binary digits behind the
/// point.
fn growth(max_queue_blocks: i64) -> Option<BigInt> {
    let increase_factor = (1.0 + (8 as f64).recip()).powf(max_queue_blocks as f64);
    BigInt::from_f64(increase_factor * (1 << 8) as f64)
}

#[test]
fn fee_cap_without_waiting_is_base_fee_plus_premium() {
    assert_eq!(growth(0), Some(BigInt::from(256)));
    assert_eq!(
        estimate_fee_cap(Some(BigInt::from(1_000)), growth(0), &BigInt::from(77)),
        Ok(BigInt::from(1_077))
    );
    let base = BigInt::from(u64::MAX) * BigInt::from(1_000_003);
    let premium = BigInt::from(123_456_789);
    assert_eq!(
        estimate_fee_cap(Some(base.clone()), growth(0), &premium),
        Ok(base + premium)
    );
    assert_eq!(
        estimate_fee_cap(Some(BigInt::from(0)), growth(0), &BigInt::from(0)),
        Ok(BigInt::from(0))
    );
}

#[test]
fn fee_cap_grows_with_the_blocks_waited() {
    assert_eq!(
        estimate_fee_cap(Some(BigInt::from(1_000)), growth(1), &BigInt::from(0)),
        Ok(BigInt::from(1_125))
    );
    // 1000 * 324 / 256 = 1265.6
    assert_eq!(
        estimate_fee_cap(Some(BigInt::from(1_000)), growth(2), &BigInt::from(5)),
        Ok(BigInt::from(1_270))
    );
    assert_eq!(growth(20), Some(BigInt::from(2_699)));
    assert_eq!(
        estimate_fee_cap(
            Some(BigInt::from(123_456_789)),
            growth(20),
            &BigInt::from(777)
        ),
        Ok(BigInt::from(1_301_601_845i64))
    );
    // less than one unit of growth is not lost on a large base fee
    assert_eq!(
        estimate_fee_cap(
            Some(BigInt::from(256_000)),
            Some(BigInt::from(257)),
            &BigInt::from(0)
        ),
        Ok(BigInt::from(257_000))
    );
}

#[test]
fn fee_cap_errors() {
    assert_eq!(
        estimate_fee_cap(None, growth(20), &BigInt::from(1)),
        Err(EstimationError::ChainStateUnavailable)
    );
    assert_eq!(
        estimate_fee_cap(None, None, &BigInt::from(1)),
        Err(EstimationError::ChainStateUnavailable)
    );
    let not_a_number = BigInt::from_f64(f64::NAN);
    assert_eq!(not_a_number, None);
    assert_eq!(
        estimate_fee_cap(Some(BigInt::from(100)), not_a_number, &BigInt::from(1)),
        Err(EstimationError::NumericConversion)
    );
    assert_eq!(BigInt::from_f64(f64::INFINITY), None);
}
