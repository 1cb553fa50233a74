//! Arbitrary-precision integers.
//!
//! Amounts and prices are `num_bigint::BigInt` values. The verifier cannot see
//! inside one, so every operation the library performs on them goes through
//! one of the functions below, whose contracts are stated over the
//! mathematical integer that a `BigInt` stands for and are taken on trust.

use vstd::prelude::*;
use num_bigint::BigInt;

verus! {

/// `num_bigint::BigInt`, carried as a value that only the functions below
/// look into.
#[verifier::external_type_specification]
#[verifier::external_body]
pub struct ExBigInt(BigInt);

/// The mathematical integer that a `BigInt` stands for.
pub uninterp spec fn big_value(b: BigInt) -> int;

/// The integer that an optional `BigInt` stands for, where there is one.
pub open spec fn big_option_value(o: Option<BigInt>) -> Option<int> {
    match o {
        Some(b) => Some(big_value(b)),
        None => None,
    }
}

/// A result with its `BigInt` replaced by the integer that it stands for.
pub open spec fn big_result_value<E>(r: Result<BigInt, E>) -> Result<int, E> {
    match r {
        Ok(b) => Ok(big_value(b)),
        Err(e) => Err(e),
    }
}

/// Quotient of `a` by `b` rounded towards zero, as Rust's `/` rounds on
/// machine integers.
pub open spec fn truncated_quotient(a: int, b: int) -> int
    recommends
        b != 0,
{
    if a >= 0 && b > 0 {
        a / b
    } else if a >= 0 {
        -(a / (-b))
    } else if b > 0 {
        -((-a) / b)
    } else {
        (-a) / (-b)
    }
}

/// `BigInt::from` on an `i64`: the result stands for the same integer.
#[verifier::external_body]
pub(crate) fn big_from_i64(n: i64) -> (r: BigInt)
    ensures
        big_value(r) == n,
{
    BigInt::from(n)
}

/// `BigInt::from` on a `u64`: the result stands for the same integer.
#[verifier::external_body]
pub(crate) fn big_from_u64(n: u64) -> (r: BigInt)
    ensures
        big_value(r) == n,
{
    BigInt::from(n)
}

/// `BigInt`'s `Clone`: the copy stands for the same integer.
pub assume_specification[ <BigInt as Clone>::clone ](a: &BigInt) -> (r: BigInt)
    ensures
        big_value(r) == big_value(*a),
;

/// `&BigInt + &BigInt`: exact sum.
#[verifier::external_body]
pub(crate) fn big_add(a: &BigInt, b: &BigInt) -> (r: BigInt)
    ensures
        big_value(r) == big_value(*a) + big_value(*b),
{
    a + b
}

/// `&BigInt - &BigInt`: exact difference.
#[verifier::external_body]
pub(crate) fn big_sub(a: &BigInt, b: &BigInt) -> (r: BigInt)
    ensures
        big_value(r) == big_value(*a) - big_value(*b),
{
    a - b
}

/// `&BigInt * &BigInt`: exact product.
#[verifier::external_body]
pub(crate) fn big_mul(a: &BigInt, b: &BigInt) -> (r: BigInt)
    ensures
        big_value(r) == big_value(*a) * big_value(*b),
{
    a * b
}

/// `&BigInt / &BigInt`: the quotient rounded towards zero. The outside
/// operator panics on a zero divisor, which the precondition leaves out.
#[verifier::external_body]
pub(crate) fn big_div(a: &BigInt, b: &BigInt) -> (r: BigInt)
    requires
        big_value(*b) != 0,
    ensures
        big_value(r) == truncated_quotient(big_value(*a), big_value(*b)),
{
    a / b
}

/// `BigInt`'s `<`: the order of the integers.
#[verifier::external_body]
pub(crate) fn big_lt(a: &BigInt, b: &BigInt) -> (r: bool)
    ensures
        r == (big_value(*a) < big_value(*b)),
{
    a < b
}

/// `num_traits::Zero::is_zero` on a `BigInt`.
#[verifier::external_body]
pub(crate) fn big_is_zero(a: &BigInt) -> (r: bool)
    ensures
        r == (big_value(*a) == 0),
{
    num_traits::Zero::is_zero(a)
}

} // verus!
