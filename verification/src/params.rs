//! Protocol constants of the gas market. Every node must use the same values,
//! or their estimates drift apart.

use vstd::prelude::*;

verus! {

/// The most gas that the messages of one block may use.
pub const BLOCK_GAS_LIMIT: i64 = 10_000_000_000;

/// The gas use per block at which the base fee stays as it is.
pub const BLOCK_GAS_TARGET: i64 = 5_000_000_000;

/// The base fee changes by at most one part in this many from one block to
/// the next.
pub const BASE_FEE_MAX_CHANGE_DENOM: i64 = 8;

/// The base fee never falls below this.
pub const MINIMUM_BASE_FEE: i64 = 100;

/// The premium suggested when the chain's recent history gives none.
pub const MIN_GAS_PREMIUM: i64 = 100_000;

/// Added to the gas a simulated run used, since a run on the chain tends to
/// use more. An approximation, not a proven bound.
pub const GAS_OVERESTIMATION_BUFFER: i64 = 200_000;

/// How many blocks ahead inclusion is aimed at when a premium is estimated as
/// part of filling in a whole message.
pub const DEFAULT_INCLUSION_BLOCKS: u64 = 10;

/// How many blocks of rising base fee the fee cap allows for when it is
/// estimated as part of filling in a whole message.
pub const DEFAULT_MAX_QUEUE_BLOCKS: i64 = 20;

/// Binary digits behind the point in the base-fee growth factor.
pub const GROWTH_PRECISION: u32 = 8;

/// Binary digits behind the point in the premium's noise factor.
pub const NOISE_PRECISION: u32 = 32;

/// The growth factor one, `2^GROWTH_PRECISION`.
pub const GROWTH_ONE: i64 = 256;

/// The noise factor one, `2^NOISE_PRECISION`.
pub const NOISE_ONE: i64 = 4_294_967_296;

} // verus!
