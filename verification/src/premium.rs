//! The gas premium estimate.
//!
//! Recent tipsets are walked back from the heaviest one, the premiums and gas
//! limits of their messages are collected, and the premium is chosen at which
//! the better-paying half of the traffic would fill half of the gas that the
//! visited blocks aim at. Where history gives no answer a fixed premium
//! stands in. The result is then scaled by a noise factor close to one, so
//! that nobody can probe for the exact boundary. One case goes out without
//! noise: where the highest bidder alone uses the budget up, the premium is
//! one above that bid.

use vstd::prelude::*;
use num_bigint::BigInt;
use crate::bigint::{
    big_add,
    big_div,
    big_from_i64,
    big_is_zero,
    big_lt,
    big_mul,
    big_option_value,
    big_result_value,
    big_sub,
    big_value,
    truncated_quotient,
};
use crate::chain::{
    blocks_through,
    chain_model,
    lemma_walk_ends_one_way,
    max_walk_steps,
    samples_through,
    walk_chain,
    walk_end,
    walk_stops_at,
    PremiumWalk,
    TipsetModel,
    TipsetSummary,
};
use crate::error::EstimationError;
use crate::params::{BLOCK_GAS_TARGET, MIN_GAS_PREMIUM, NOISE_ONE};
use crate::sample::{
    lemma_sorted_is_permutation,
    samples_model,
    sort_by_premium,
    sorted_by_premium,
    PriceSample,
    SampleModel,
};

verus! {

/// The gas that the samples of `s` up to and including position `i` ask for.
pub open spec fn gas_through(s: Seq<SampleModel>, i: int) -> int
    decreases i + 1,
{
    if i < 0 {
        0
    } else {
        gas_through(s, i - 1) + s[i].limit
    }
}

/// Whether the sample at position `i` is the first with which the gas asked
/// for so far reaches `target`.
pub open spec fn crosses_at(s: Seq<SampleModel>, target: int, i: int) -> bool {
    &&& 0 <= i < s.len()
    &&& gas_through(s, i) >= target
    &&& forall|j: int| 0 <= j < i ==> #[trigger] gas_through(s, j) < target
}

/// Whether all of `s` together asks for less gas than `target`, at every point
/// along the way.
pub open spec fn never_crosses(s: Seq<SampleModel>, target: int) -> bool {
    forall|j: int| 0 <= j < s.len() ==> #[trigger] gas_through(s, j) < target
}

/// The premium chosen when the sample at position `i` crosses the target: one
/// above it where it is the first sample, else one above the middle between it
/// and the sample before it.
pub open spec fn midpoint_premium(s: Seq<SampleModel>, i: int) -> int {
    if i == 0 {
        s[0].premium + 1
    } else {
        truncated_quotient(s[i - 1].premium + s[i].premium, 2) + 1
    }
}

/// What the sweep over the sorted samples `s` yields for the gas budget
/// `target`: the midpoint premium at the crossing sample, or zero where the
/// samples never use the budget up.
pub open spec fn swept_premium(s: Seq<SampleModel>, target: int) -> int {
    if exists|i: int| crosses_at(s, target, i) {
        midpoint_premium(s, choose|i: int| crosses_at(s, target, i))
    } else {
        0
    }
}

/// The gas budget of the sweep: half of what `blocks` blocks aim at.
pub open spec fn gas_budget(blocks: int) -> int {
    truncated_quotient(BLOCK_GAS_TARGET * blocks, 2)
}

/// The inclusion delay that is aimed at: zero counts as one block.
pub open spec fn inclusion_blocks(num_blocks_included: u64) -> int {
    if num_blocks_included == 0 {
        1
    } else {
        num_blocks_included as int
    }
}

/// The premium that stands in where history gives none: twice the minimum
/// for inclusion in the next block, one and a half times for the one after,
/// the minimum itself beyond that.
pub open spec fn fallback_premium(blocks: int) -> int {
    if blocks == 1 {
        2 * MIN_GAS_PREMIUM
    } else if blocks == 2 {
        3 * MIN_GAS_PREMIUM / 2
    } else {
        MIN_GAS_PREMIUM as int
    }
}

/// The premium before noise: what the sweep over the sorted samples yields,
/// or the fallback where that is zero.
pub open spec fn premium_before_noise(
    samples: Seq<SampleModel>,
    blocks: int,
    num_blocks_included: u64,
) -> int {
    let swept = swept_premium(sorted_by_premium(samples), gas_budget(blocks));
    if swept == 0 {
        fallback_premium(inclusion_blocks(num_blocks_included))
    } else {
        swept
    }
}

/// `premium` scaled by the fixed-point factor `noise`, which has
/// `NOISE_PRECISION` binary digits behind the point.
pub open spec fn with_noise(premium: int, noise: int) -> int {
    truncated_quotient(premium * noise, NOISE_ONE as int)
}

/// At most one sample crosses the target.
pub proof fn lemma_crossing_is_unique(s: Seq<SampleModel>, target: int, i: int, j: int)
    requires
        crosses_at(s, target, i),
        crosses_at(s, target, j),
    ensures
        i == j,
{
    if i < j {
        assert(gas_through(s, i) < target);
    } else if j < i {
        assert(gas_through(s, j) < target);
    }
}

/// The sweep yields the midpoint premium at the crossing sample.
pub proof fn lemma_swept_at_crossing(s: Seq<SampleModel>, target: int, i: int)
    requires
        crosses_at(s, target, i),
    ensures
        swept_premium(s, target) == midpoint_premium(s, i),
{
    let c = choose|c: int| crosses_at(s, target, c);
    lemma_crossing_is_unique(s, target, i, c);
}

/// The sweep yields zero where no sample crosses the target.
pub proof fn lemma_swept_without_crossing(s: Seq<SampleModel>, target: int)
    requires
        never_crosses(s, target),
    ensures
        swept_premium(s, target) == 0,
{
    if exists|i: int| crosses_at(s, target, i) {
        let c = choose|c: int| crosses_at(s, target, c);
        assert(gas_through(s, c) < target);
    }
}

/// Sweeps the sorted samples from the highest premium down, taking each
/// sample's gas limit off the budget `target`, and picks the premium at the
/// sample with which the budget is used up. Yields zero where it never is.
pub fn sweep_premium(sorted: &Vec<PriceSample>, target: &BigInt) -> (r: BigInt)
    ensures
        big_value(r) == swept_premium(samples_model(sorted@), big_value(*target)),
{
    let ghost s = samples_model(sorted@);
    let ghost t = big_value(*target);
    let zero = big_from_i64(0);
    let one = big_from_i64(1);
    let mut at = target.clone();
    let mut i: usize = 0;
    while i < sorted.len()
        invariant
            i <= sorted.len(),
            s == samples_model(sorted@),
            t == big_value(*target),
            big_value(zero) == 0,
            big_value(one) == 1,
            big_value(at) == t - gas_through(s, i - 1),
            forall|j: int| 0 <= j < i ==> #[trigger] gas_through(s, j) < t,
        decreases sorted.len() - i,
    {
        let limit = big_from_i64(sorted[i].limit);
        assert(s[i as int] == sorted@[i as int]@);
        at = big_sub(&at, &limit);
        assert(big_value(at) == t - gas_through(s, i as int));
        if !big_lt(&zero, &at) {
            proof {
                assert(crosses_at(s, t, i as int));
                lemma_swept_at_crossing(s, t, i as int);
            }
            if i == 0 {
                return big_add(&sorted[0].premium, &one);
            }
            assert(s[i - 1] == sorted@[i - 1]@);
            let two = big_from_i64(2);
            let sum = big_add(&sorted[i - 1].premium, &sorted[i].premium);
            let half = big_div(&sum, &two);
            return big_add(&half, &one);
        }
        i += 1;
    }
    proof {
        lemma_swept_without_crossing(s, t);
    }
    zero
}

/// The premium that stands in where history gives none, for an inclusion
/// delay of `num_blocks_included` blocks.
pub fn fallback_premium_for(num_blocks_included: u64) -> (r: BigInt)
    ensures
        big_value(r) == fallback_premium(inclusion_blocks(num_blocks_included)),
{
    if num_blocks_included <= 1 {
        big_from_i64(2 * MIN_GAS_PREMIUM)
    } else if num_blocks_included == 2 {
        big_from_i64(3 * MIN_GAS_PREMIUM / 2)
    } else {
        big_from_i64(MIN_GAS_PREMIUM)
    }
}

/// Scales `premium` by the fixed-point factor `noise`.
pub fn apply_noise(premium: &BigInt, noise: &BigInt) -> (r: BigInt)
    ensures
        big_value(r) == with_noise(big_value(*premium), big_value(*noise)),
{
    let scaled = big_mul(premium, noise);
    let one = big_from_i64(NOISE_ONE);
    big_div(&scaled, &one)
}

/// Sorts the samples and works out the gas budget for `blocks` blocks.
fn sorted_and_budget(samples: &Vec<PriceSample>, blocks: &BigInt) -> (r: (
    Vec<PriceSample>,
    BigInt,
))
    ensures
        samples_model(r.0@) == sorted_by_premium(samples_model(samples@)),
        big_value(r.1) == gas_budget(big_value(*blocks)),
{
    let sorted = sort_by_premium(samples);
    let per_block = big_from_i64(BLOCK_GAS_TARGET);
    let two = big_from_i64(2);
    let total = big_mul(&per_block, blocks);
    let target = big_div(&total, &two);
    (sorted, target)
}

/// What the sweep over `sorted` yields for the budget `target`, or the
/// fallback where that is zero.
fn swept_or_fallback(sorted: &Vec<PriceSample>, target: &BigInt, num_blocks_included: u64) -> (r:
    BigInt)
    ensures
        big_value(r) == (if swept_premium(samples_model(sorted@), big_value(*target)) == 0 {
            fallback_premium(inclusion_blocks(num_blocks_included))
        } else {
            swept_premium(samples_model(sorted@), big_value(*target))
        }),
{
    let swept = sweep_premium(sorted, target);
    if big_is_zero(&swept) {
        fallback_premium_for(num_blocks_included)
    } else {
        swept
    }
}

/// The premium for the samples collected from `blocks` blocks, before noise.
pub fn premium_from_samples(
    samples: &Vec<PriceSample>,
    blocks: &BigInt,
    num_blocks_included: u64,
) -> (r: BigInt)
    ensures
        big_value(r) == premium_before_noise(
            samples_model(samples@),
            big_value(*blocks),
            num_blocks_included,
        ),
{
    let (sorted, target) = sorted_and_budget(samples, blocks);
    swept_or_fallback(&sorted, &target, num_blocks_included)
}

/// Whether the highest bidder among `samples` uses the gas budget of
/// `blocks` blocks up by itself: the sweep crosses at the first sorted
/// sample, with no sample before it.
pub open spec fn first_sample_crosses(samples: Seq<SampleModel>, blocks: int) -> bool {
    crosses_at(sorted_by_premium(samples), gas_budget(blocks), 0)
}

/// The premium for what a walk gathered.
///
/// Where the first sorted sample crosses, the premium is one above that
/// sample's and goes out as it is: no noise is applied, and none is needed.
/// Else the premium before noise, from a crossing further down or from the
/// fallback, is scaled by the noise factor, and a missing factor is a
/// `NumericConversion` error.
pub open spec fn premium_of_walk(
    samples: Seq<SampleModel>,
    blocks: int,
    num_blocks_included: u64,
    noise: Option<int>,
) -> Result<int, EstimationError> {
    if first_sample_crosses(samples, blocks) {
        Ok(sorted_by_premium(samples)[0].premium + 1)
    } else {
        match noise {
            None => Err(EstimationError::NumericConversion),
            Some(factor) => Ok(
                with_noise(premium_before_noise(samples, blocks, num_blocks_included), factor),
            ),
        }
    }
}

/// Whether the first of the sorted samples uses the budget `target` up by
/// itself.
pub fn crosses_at_first(sorted: &Vec<PriceSample>, target: &BigInt) -> (r: bool)
    ensures
        r == crosses_at(samples_model(sorted@), big_value(*target), 0),
{
    if sorted.len() == 0 {
        return false;
    }
    let ghost s = samples_model(sorted@);
    assert(s[0] == sorted@[0]@);
    assert(gas_through(s, -1) == 0);
    assert(gas_through(s, 0) == s[0].limit);
    let zero = big_from_i64(0);
    let limit = big_from_i64(sorted[0].limit);
    let left = big_sub(target, &limit);
    !big_lt(&zero, &left)
}

/// The final premium for the samples collected from `blocks` blocks and the
/// noise factor drawn, absent where the factor could not be turned into a
/// fixed-point integer.
pub fn premium_with_noise(
    samples: &Vec<PriceSample>,
    blocks: &BigInt,
    num_blocks_included: u64,
    noise: Option<BigInt>,
) -> (r: Result<BigInt, EstimationError>)
    ensures
        big_result_value(r) == premium_of_walk(
            samples_model(samples@),
            big_value(*blocks),
            num_blocks_included,
            big_option_value(noise),
        ),
{
    let (sorted, target) = sorted_and_budget(samples, blocks);
    if crosses_at_first(&sorted, &target) {
        proof {
            lemma_swept_at_crossing(samples_model(sorted@), big_value(target), 0);
        }
        return Ok(sweep_premium(&sorted, &target));
    }
    let premium = swept_or_fallback(&sorted, &target, num_blocks_included);
    match noise {
        None => Err(EstimationError::NumericConversion),
        Some(factor) => Ok(apply_noise(&premium, &factor)),
    }
}

/// The final premium for a finished walk and the noise factor drawn, absent
/// where the factor could not be turned into a fixed-point integer.
pub fn premium_from_walk(walk: &PremiumWalk, noise: Option<BigInt>) -> (r: Result<
    BigInt,
    EstimationError,
>)
    ensures
        big_result_value(r) == premium_of_walk(
            walk@.samples,
            walk@.blocks,
            walk@.num_blocks_included,
            big_option_value(noise),
        ),
{
    premium_with_noise(walk.samples(), walk.blocks(), walk.num_blocks_included(), noise)
}

/// The premium estimate for a chain, an inclusion delay and a noise factor:
/// a `ChainStateUnavailable` error where the walk runs out of chain, else the
/// premium for the samples and blocks that the walk gathered.
pub open spec fn premium_estimate(
    chain: Seq<TipsetModel>,
    num_blocks_included: u64,
    noise: Option<int>,
) -> Result<int, EstimationError> {
    match walk_end(chain, max_walk_steps(num_blocks_included)) {
        None => Err(EstimationError::ChainStateUnavailable),
        Some(k) => premium_of_walk(
            samples_through(chain, k),
            blocks_through(chain, k),
            num_blocks_included,
            noise,
        ),
    }
}

/// Suggests a gas premium for a message that should be included within
/// `num_blocks_included` blocks.
///
/// `chain` holds the heaviest tipset first and then each tipset's parent, as
/// far as the walk may need them. `noise` is the noise factor as a
/// fixed-point integer, absent where the factor drawn could not be turned
/// into one.
///
/// Fails with `ChainStateUnavailable` where the heaviest tipset or an ancestor
/// that the walk asks for is missing, and with `NumericConversion` where the
/// noise factor is needed and absent. It is not needed where the highest
/// bidder uses the gas budget up by itself: the premium is then one above
/// that bid, as it is.
pub fn estimate_gas_premium(
    chain: &Vec<TipsetSummary>,
    num_blocks_included: u64,
    noise: Option<BigInt>,
) -> (r: Result<BigInt, EstimationError>)
    ensures
        big_result_value(r) == premium_estimate(
            chain_model(chain@),
            num_blocks_included,
            big_option_value(noise),
        ),
{
    proof {
        lemma_walk_ends_one_way(chain_model(chain@), max_walk_steps(num_blocks_included));
    }
    let walk = match walk_chain(chain, num_blocks_included) {
        Ok(walk) => walk,
        Err(e) => {
            return Err(e);
        },
    };
    premium_from_walk(&walk, noise)
}

/// Whether no sample of `s` has a negative premium.
pub open spec fn premiums_not_negative(s: Seq<SampleModel>) -> bool {
    forall|i: int| 0 <= i < s.len() ==> (#[trigger] s[i]).premium >= 0
}

/// Sorting brings in no negative premium.
pub proof fn lemma_sorted_premiums_not_negative(samples: Seq<SampleModel>)
    requires
        premiums_not_negative(samples),
    ensures
        premiums_not_negative(sorted_by_premium(samples)),
{
    let sorted = sorted_by_premium(samples);
    lemma_sorted_is_permutation(samples);
    assert forall|i: int| 0 <= i < sorted.len() implies (#[trigger] sorted[i]).premium >= 0 by {
        broadcast use vstd::seq_lib::group_to_multiset_ensures;

        assert(sorted.contains(sorted[i]));
        assert(samples.to_multiset().count(sorted[i]) > 0);
        assert(samples.contains(sorted[i]));
    }
}

/// Before noise the premium is never zero: from samples without a negative
/// premium it is at least one, whether the sweep finds a crossing or the
/// fallback stands in.
pub proof fn lemma_premium_before_noise_is_positive(
    samples: Seq<SampleModel>,
    blocks: int,
    num_blocks_included: u64,
)
    requires
        premiums_not_negative(samples),
    ensures
        premium_before_noise(samples, blocks, num_blocks_included) > 0,
{
    let sorted = sorted_by_premium(samples);
    let target = gas_budget(blocks);
    if exists|i: int| crosses_at(sorted, target, i) {
        let c = choose|c: int| crosses_at(sorted, target, c);
        lemma_sorted_premiums_not_negative(samples);
        assert(sorted[c].premium >= 0);
        if c > 0 {
            assert(sorted[c - 1].premium >= 0);
        }
    }
}

/// Where the highest bidder uses the gas budget up by itself, the premium is
/// one above that bid whatever the noise factor is, present or absent, and so
/// above zero for samples without a negative premium.
pub proof fn lemma_first_crossing_goes_out_as_it_is(
    samples: Seq<SampleModel>,
    blocks: int,
    num_blocks_included: u64,
    noise: Option<int>,
)
    requires
        first_sample_crosses(samples, blocks),
    ensures
        premium_of_walk(samples, blocks, num_blocks_included, noise) == Ok::<
            int,
            EstimationError,
        >(sorted_by_premium(samples)[0].premium + 1),
        premiums_not_negative(samples) ==> premium_of_walk(
            samples,
            blocks,
            num_blocks_included,
            noise,
        )->Ok_0 > 0,
{
    if premiums_not_negative(samples) {
        lemma_sorted_premiums_not_negative(samples);
        assert(sorted_by_premium(samples)[0].premium >= 0);
    }
}

/// With the fallback standing in, the premium before noise is twice the
/// minimum for an inclusion delay of one block (or none), one and a half
/// times the minimum for two, and the minimum for three and more.
pub proof fn lemma_fallback_table(samples: Seq<SampleModel>, blocks: int, num_blocks_included: u64)
    requires
        never_crosses(sorted_by_premium(samples), gas_budget(blocks)),
    ensures
        premium_before_noise(samples, blocks, num_blocks_included) == if num_blocks_included
            <= 1 {
            2 * MIN_GAS_PREMIUM
        } else if num_blocks_included == 2 {
            150_000
        } else {
            MIN_GAS_PREMIUM as int
        },
{
    lemma_swept_without_crossing(sorted_by_premium(samples), gas_budget(blocks));
}

/// With no samples at all the fallback stands in, whatever the number of
/// blocks.
pub proof fn lemma_no_samples_never_cross(blocks: int)
    ensures
        never_crosses(sorted_by_premium(Seq::<SampleModel>::empty()), gas_budget(blocks)),
{
}

/// A premium that is not negative stays positive under noise exactly when
/// the scaled product reaches one unit of the fixed point.
pub proof fn lemma_noised_premium_positive(premium: int, noise: int)
    requires
        premium >= 0,
        noise >= 0,
    ensures
        with_noise(premium, noise) > 0 <==> premium * noise >= NOISE_ONE,
        with_noise(premium, noise) >= 0,
{
    assert(premium * noise >= 0) by (nonlinear_arith)
        requires
            premium >= 0,
            noise >= 0,
    ;
    let product = premium * noise;
    assert(product / 4_294_967_296 > 0 <==> product >= 4_294_967_296);
}

/// When the premium estimate is above zero, for a chain without negative
/// premiums and a noise factor that is not negative.
///
/// Where the highest bidder uses the gas budget up by itself, always: the
/// premium is one above that bid. Else exactly when the premium before noise,
/// scaled by the factor, reaches one unit of the fixed point. Before noise
/// the premium is at least one, so any factor of one or more will do, and the
/// fallback is large enough for every factor near one.
pub proof fn lemma_premium_estimate_is_positive(
    chain: Seq<TipsetModel>,
    num_blocks_included: u64,
    noise: int,
    k: int,
)
    requires
        walk_stops_at(chain, max_walk_steps(num_blocks_included), k),
        premiums_not_negative(samples_through(chain, k)),
        noise >= 0,
    ensures
        premium_estimate(chain, num_blocks_included, Some(noise)) is Ok,
        first_sample_crosses(samples_through(chain, k), blocks_through(chain, k))
            ==> premium_estimate(chain, num_blocks_included, Some(noise))->Ok_0 > 0,
        !first_sample_crosses(samples_through(chain, k), blocks_through(chain, k)) ==> (
        premium_estimate(chain, num_blocks_included, Some(noise))->Ok_0 > 0
            <==> premium_before_noise(
            samples_through(chain, k),
            blocks_through(chain, k),
            num_blocks_included,
        ) * noise >= NOISE_ONE),
        noise >= NOISE_ONE ==> premium_estimate(chain, num_blocks_included, Some(noise))->Ok_0
            > 0,
{
    lemma_walk_ends_one_way(chain, max_walk_steps(num_blocks_included));
    let samples = samples_through(chain, k);
    let blocks = blocks_through(chain, k);
    if first_sample_crosses(samples, blocks) {
        lemma_first_crossing_goes_out_as_it_is(samples, blocks, num_blocks_included, Some(noise));
    } else {
        let before = premium_before_noise(samples, blocks, num_blocks_included);
        lemma_premium_before_noise_is_positive(samples, blocks, num_blocks_included);
        lemma_noised_premium_positive(before, noise);
        if noise >= NOISE_ONE {
            assert(before * noise >= NOISE_ONE) by (nonlinear_arith)
                requires
                    before >= 1,
                    noise >= NOISE_ONE,
            ;
        }
    }
}

/// Noise within one part in a hundred of one moves a premium by no more than
/// one part in a hundred, up to the rounding of the division.
pub proof fn lemma_noise_band(premium: int, noise: int)
    requires
        premium >= 0,
        99 * NOISE_ONE <= 100 * noise <= 101 * NOISE_ONE,
    ensures
        100 * with_noise(premium, noise) <= 101 * premium,
        99 * premium < 100 * (with_noise(premium, noise) + 1),
{
    let one = NOISE_ONE as int;
    let product = premium * noise;
    assert(99 * one * premium <= 100 * product <= 101 * one * premium) by (nonlinear_arith)
        requires
            premium >= 0,
            99 * one <= 100 * noise <= 101 * one,
            product == premium * noise,
    ;
    let q = product / one;
    assert(product >= 0);
    assert(q * one <= product < (q + 1) * one) by (nonlinear_arith)
        requires
            q == product / one,
            one > 0,
    ;
    assert(100 * q <= 101 * premium) by (nonlinear_arith)
        requires
            q * one <= product,
            100 * product <= 101 * one * premium,
            one > 0,
    ;
    assert(99 * premium < 100 * (q + 1)) by (nonlinear_arith)
        requires
            product < (q + 1) * one,
            99 * one * premium <= 100 * product,
            one > 0,
    ;
}

} // verus!
