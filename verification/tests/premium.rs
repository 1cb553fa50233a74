use gas_engine::chain::{walk_chain, PremiumWalk, TipsetSummary, WalkStep};
use gas_engine::error::EstimationError;
use gas_engine::premium::{
    apply_noise, crosses_at_first, estimate_gas_premium, fallback_premium_for,
    premium_from_samples, premium_from_walk, premium_with_noise, sweep_premium,
};
use gas_engine::sample::{sort_by_premium, PriceSample};
use num_bigint::BigInt;

fn sample(premium: i64, limit: i64) -> PriceSample {
    PriceSample {
        premium: BigInt::from(premium),
        limit,
    }
}

fn tipset(epoch: i64, block_count: usize, messages: Vec<PriceSample>) -> TipsetSummary {
    TipsetSummary {
        epoch,
        block_count,
        parent_base_fee: BigInt::from(100),
        messages,
    }
}

fn noise_one() -> BigInt {
    BigInt::from(1u64 << 32)
}

#[test]
fn sort_is_descending_and_stable() {
    let input = vec![
        sample(5, 1),
        sample(7, 2),
        sample(7, 3),
        sample(3, 4),
        sample(7, 5),
        sample(9, 6),
    ];
    let sorted = sort_by_premium(&input);
    assert_eq!(
        sorted,
        vec![
            sample(9, 6),
            sample(7, 2),
            sample(7, 3),
            sample(7, 5),
            sample(5, 1),
            sample(3, 4),
        ]
    );
    assert_eq!(sort_by_premium(&Vec::new()), Vec::new());
}

#[test]
fn sort_handles_premiums_beyond_machine_integers() {
    let huge = BigInt::from(u64::MAX) * BigInt::from(u64::MAX);
    let input = vec![
        sample(1, 1),
        PriceSample {
            premium: huge.clone(),
            limit: 2,
        },
        sample(-4, 3),
    ];
    let sorted = sort_by_premium(&input);
    assert_eq!(sorted[0].premium, huge);
    assert_eq!(sorted[1], sample(1, 1));
    assert_eq!(sorted[2], sample(-4, 3));
}

#[test]
fn sweep_takes_midpoint_at_the_crossing_sample() {
    let sorted = vec![
        sample(7, 2_000_000_000),
        sample(7, 1_000_000_000),
        sample(5, 1_000_000_000),
        sample(3, 3_000_000_000),
        sample(1, 9_000_000_000),
    ];
    // 5e9 - 2e9 - 1e9 - 1e9 = 1e9 > 0, then 1e9 - 3e9 <= 0: (5 + 3) / 2 + 1
    assert_eq!(
        sweep_premium(&sorted, &BigInt::from(5_000_000_000i64)),
        BigInt::from(5)
    );
    // the budget is used up exactly by the third sample: (7 + 5) / 2 + 1
    assert_eq!(
        sweep_premium(&sorted, &BigInt::from(4_000_000_000i64)),
        BigInt::from(7)
    );
    // the midpoint is rounded down: (5 + 3) / 2 = 4, (3 + 1) / 2 = 2
    assert_eq!(
        sweep_premium(&sorted, &BigInt::from(7_000_000_001i64)),
        BigInt::from(3)
    );
}

#[test]
fn sweep_crossing_at_first_sample_adds_one() {
    let sorted = vec![sample(4, 3_000_000_000), sample(2, 1)];
    assert_eq!(
        sweep_premium(&sorted, &BigInt::from(2_500_000_000i64)),
        BigInt::from(5)
    );
    assert_eq!(sweep_premium(&sorted, &BigInt::from(0)), BigInt::from(5));
}

#[test]
fn sweep_without_crossing_is_zero() {
    let sorted = vec![sample(4, 1_000), sample(2, 1_000)];
    assert_eq!(
        sweep_premium(&sorted, &BigInt::from(2_001)),
        BigInt::from(0)
    );
    assert_eq!(sweep_premium(&Vec::new(), &BigInt::from(1)), BigInt::from(0));
    // with no samples even an empty budget is never used up
    assert_eq!(sweep_premium(&Vec::new(), &BigInt::from(0)), BigInt::from(0));
}

#[test]
fn fallback_table() {
    assert_eq!(fallback_premium_for(0), BigInt::from(200_000));
    assert_eq!(fallback_premium_for(1), BigInt::from(200_000));
    assert_eq!(fallback_premium_for(2), BigInt::from(150_000));
    assert_eq!(fallback_premium_for(3), BigInt::from(100_000));
    assert_eq!(fallback_premium_for(10), BigInt::from(100_000));
    assert_eq!(fallback_premium_for(u64::MAX), BigInt::from(100_000));
}

#[test]
fn premium_without_data_is_the_fallback() {
    let none: Vec<PriceSample> = Vec::new();
    let blocks = BigInt::from(0);
    assert_eq!(premium_from_samples(&none, &blocks, 1), BigInt::from(200_000));
    assert_eq!(premium_from_samples(&none, &blocks, 2), BigInt::from(150_000));
    assert_eq!(premium_from_samples(&none, &blocks, 3), BigInt::from(100_000));
    // data that never fills half the blocks' target falls back too
    let few = vec![sample(900, 1_000_000)];
    assert_eq!(
        premium_from_samples(&few, &BigInt::from(4), 2),
        BigInt::from(150_000)
    );
}

#[test]
fn tie_break_follows_encounter_order() {
    // one block: the budget is 2.5e9
    let blocks = BigInt::from(1);
    let first = vec![
        sample(10, 1_000_000_000),
        sample(7, 1_000_000_000),
        sample(7, 2_000_000_000),
    ];
    // 1.5e9, 0.5e9, then the third sample crosses: (7 + 7) / 2 + 1
    assert_eq!(premium_from_samples(&first, &blocks, 1), BigInt::from(8));
    let second = vec![
        sample(10, 1_000_000_000),
        sample(7, 2_000_000_000),
        sample(7, 1_000_000_000),
    ];
    // 1.5e9, then the second sample crosses: (10 + 7) / 2 + 1
    assert_eq!(premium_from_samples(&second, &blocks, 1), BigInt::from(9));
    // the same samples met before the high bidder give the same answers
    let third = vec![
        sample(7, 1_000_000_000),
        sample(7, 2_000_000_000),
        sample(10, 1_000_000_000),
    ];
    assert_eq!(premium_from_samples(&third, &blocks, 1), BigInt::from(8));
}

#[test]
fn noise_scales_by_fixed_point_factor() {
    let p = BigInt::from(200_000);
    assert_eq!(apply_noise(&p, &noise_one()), BigInt::from(200_000));
    assert_eq!(
        apply_noise(&p, &BigInt::from(4_316_442_132u64)),
        BigInt::from(200_999)
    );
    assert_eq!(
        apply_noise(&p, &BigInt::from(4_252_017_623u64)),
        BigInt::from(197_999)
    );
    assert_eq!(
        apply_noise(&BigInt::from(1), &BigInt::from(4_252_017_623u64)),
        BigInt::from(0)
    );
    assert_eq!(apply_noise(&p, &BigInt::from(0)), BigInt::from(0));
    // the quotient is rounded towards zero
    assert_eq!(
        apply_noise(&BigInt::from(-3), &BigInt::from(1u64 << 31)),
        BigInt::from(-1)
    );
}

#[test]
fn walk_takes_twice_the_inclusion_blocks() {
    let chain: Vec<TipsetSummary> = (0..8)
        .map(|i| tipset(100 - i, 1, vec![sample(i + 1, 10)]))
        .collect();
    let walk = walk_chain(&chain, 1).unwrap();
    assert_eq!(walk.blocks(), &BigInt::from(2));
    assert_eq!(walk.samples(), &vec![sample(2, 10), sample(3, 10)]);
    let walk = walk_chain(&chain, 0).unwrap();
    assert_eq!(walk.blocks(), &BigInt::from(2));
    let walk = walk_chain(&chain, 3).unwrap();
    assert_eq!(walk.blocks(), &BigInt::from(6));
    assert_eq!(walk.samples().len(), 6);
    assert_eq!(walk.samples()[5], sample(7, 10));
}

#[test]
fn walk_stops_at_genesis() {
    let chain = vec![
        tipset(2, 1, vec![sample(1, 1)]),
        tipset(1, 3, vec![sample(2, 2), sample(3, 3)]),
        tipset(0, 2, vec![sample(4, 4)]),
    ];
    let walk = walk_chain(&chain, 10).unwrap();
    assert_eq!(walk.blocks(), &BigInt::from(5));
    assert_eq!(
        walk.samples(),
        &vec![sample(2, 2), sample(3, 3), sample(4, 4)]
    );
    // a heaviest tipset of epoch zero has nothing behind it
    let genesis = vec![tipset(0, 1, vec![sample(9, 9)])];
    let walk = walk_chain(&genesis, 10).unwrap();
    assert_eq!(walk.blocks(), &BigInt::from(0));
    assert!(walk.samples().is_empty());
}

#[test]
fn walk_fails_where_the_chain_breaks_off() {
    assert_eq!(
        walk_chain(&Vec::new(), 1).err(),
        Some(EstimationError::ChainStateUnavailable)
    );
    let chain = vec![tipset(7, 1, Vec::new()), tipset(6, 1, Vec::new())];
    assert_eq!(
        walk_chain(&chain, 1).err(),
        Some(EstimationError::ChainStateUnavailable)
    );
    let chain = vec![
        tipset(7, 1, Vec::new()),
        tipset(6, 1, Vec::new()),
        tipset(5, 1, Vec::new()),
    ];
    assert!(walk_chain(&chain, 1).is_ok());
}

#[test]
fn walk_can_be_driven_step_by_step() {
    let mut walk = PremiumWalk::new(1);
    assert_eq!(walk.next_step(5), WalkStep::LoadParent);
    walk.absorb(&tipset(4, 2, vec![sample(1, 1)]));
    assert_eq!(walk.next_step(0), WalkStep::Finish);
    assert_eq!(walk.next_step(4), WalkStep::LoadParent);
    walk.absorb(&tipset(3, 1, vec![sample(2, 2)]));
    assert_eq!(walk.next_step(3), WalkStep::Finish);
    assert_eq!(walk.blocks(), &BigInt::from(3));
    assert_eq!(walk.samples(), &vec![sample(1, 1), sample(2, 2)]);
}

#[test]
fn estimate_over_a_crafted_chain() {
    let chain = vec![
        tipset(5, 1, vec![sample(1_000, 9_000_000_000)]),
        tipset(
            4,
            1,
            vec![sample(5, 1_000_000_000), sample(7, 2_000_000_000)],
        ),
        tipset(
            3,
            1,
            vec![sample(7, 1_000_000_000), sample(3, 3_000_000_000)],
        ),
        tipset(2, 1, vec![sample(100, 9_000_000_000)]),
    ];
    // two steps, two blocks: the budget is 5e9; the heaviest tipset's own
    // messages and those beyond the second ancestor play no part.
    // sorted: (7, 2e9), (7, 1e9), (5, 1e9), (3, 3e9); the last one crosses.
    assert_eq!(
        estimate_gas_premium(&chain, 1, Some(noise_one())),
        Ok(BigInt::from(5))
    );
    assert_eq!(
        estimate_gas_premium(&chain, 1, Some(BigInt::from(3u64 << 32))),
        Ok(BigInt::from(15))
    );
    assert_eq!(
        estimate_gas_premium(&chain, 1, None),
        Err(EstimationError::NumericConversion)
    );
    assert_eq!(
        estimate_gas_premium(&chain, 2, Some(noise_one())),
        Err(EstimationError::ChainStateUnavailable)
    );
    assert_eq!(
        estimate_gas_premium(&Vec::new(), 1, None),
        Err(EstimationError::ChainStateUnavailable)
    );
}

#[test]
fn estimate_falls_back_within_the_noise_band() {
    let quiet = vec![
        tipset(9, 1, Vec::new()),
        tipset(8, 1, Vec::new()),
        tipset(7, 1, Vec::new()),
        tipset(6, 1, Vec::new()),
        tipset(5, 1, Vec::new()),
        tipset(4, 1, Vec::new()),
        tipset(3, 1, Vec::new()),
    ];
    let low = BigInt::from(4_252_017_623u64);
    let high = BigInt::from(4_337_916_968u64);
    assert_eq!(
        estimate_gas_premium(&quiet, 1, Some(low.clone())),
        Ok(BigInt::from(197_999))
    );
    assert_eq!(
        estimate_gas_premium(&quiet, 1, Some(high)),
        Ok(BigInt::from(201_999))
    );
    assert_eq!(
        estimate_gas_premium(&quiet, 2, Some(low.clone())),
        Ok(BigInt::from(148_499))
    );
    assert_eq!(
        estimate_gas_premium(&quiet, 3, Some(low)),
        Ok(BigInt::from(98_999))
    );
}

#[test]
fn tie_break_across_tipsets_follows_the_walk() {
    // one step per ancestor, one block each: the budget is 5e9
    let near_first = vec![
        tipset(9, 1, Vec::new()),
        tipset(8, 1, vec![sample(10, 3_000_000_000), sample(7, 1_000_000_000)]),
        tipset(7, 1, vec![sample(7, 4_000_000_000)]),
    ];
    // sorted: (10, 3e9), (7, 1e9), (7, 4e9): 2e9, 1e9, then the third
    // crosses behind a sample of the same premium: (7 + 7) / 2 + 1
    assert_eq!(
        estimate_gas_premium(&near_first, 1, Some(noise_one())),
        Ok(BigInt::from(8))
    );
    let far_first = vec![
        tipset(9, 1, Vec::new()),
        tipset(8, 1, vec![sample(10, 3_000_000_000), sample(7, 4_000_000_000)]),
        tipset(7, 1, vec![sample(7, 1_000_000_000)]),
    ];
    // sorted: (10, 3e9), (7, 4e9), (7, 1e9): 2e9, then the second crosses
    // behind the high bidder: (10 + 7) / 2 + 1
    assert_eq!(
        estimate_gas_premium(&far_first, 1, Some(noise_one())),
        Ok(BigInt::from(9))
    );
}

#[test]
fn premium_is_positive_on_every_path() {
    let zero = BigInt::from(0);
    let low = BigInt::from(4_252_017_623u64);
    // fallback
    let quiet = vec![tipset(1, 1, Vec::new()), tipset(0, 1, Vec::new())];
    assert!(estimate_gas_premium(&quiet, 5, Some(low.clone())).unwrap() > zero);
    // crossing at the first sample: one above it, as it is
    let first = vec![
        tipset(1, 1, Vec::new()),
        tipset(0, 1, vec![sample(1_000, 9_000_000_000)]),
    ];
    assert_eq!(
        estimate_gas_premium(&first, 5, Some(low.clone())),
        Ok(BigInt::from(1_001))
    );
    // crossing further down
    let later = vec![
        tipset(1, 1, Vec::new()),
        tipset(
            0,
            1,
            vec![sample(1_000, 1_000_000_000), sample(500, 9_000_000_000)],
        ),
    ];
    assert_eq!(
        estimate_gas_premium(&later, 5, Some(low.clone())),
        Ok(BigInt::from(743))
    );
    // a first sample that bids nothing still gives a premium of one
    let free = vec![
        tipset(1, 1, Vec::new()),
        tipset(0, 1, vec![sample(0, 9_000_000_000)]),
    ];
    assert_eq!(
        estimate_gas_premium(&free, 5, Some(noise_one())),
        Ok(BigInt::from(1))
    );
    assert_eq!(
        estimate_gas_premium(&free, 5, Some(low)),
        Ok(BigInt::from(1))
    );
}

#[test]
fn first_crossing_goes_out_without_noise() {
    let first = vec![
        tipset(1, 1, Vec::new()),
        tipset(
            0,
            1,
            vec![sample(3, 1), sample(1_000, 9_000_000_000), sample(7, 2)],
        ),
    ];
    for noise in [
        Some(BigInt::from(0)),
        Some(BigInt::from(1)),
        Some(BigInt::from(4_252_017_623u64)),
        Some(noise_one()),
        Some(BigInt::from(u64::MAX)),
        Some(BigInt::from(-5)),
        None,
    ] {
        assert_eq!(
            estimate_gas_premium(&first, 1, noise),
            Ok(BigInt::from(1_001))
        );
    }
    // the budget of one block is 2.5e9; a sample that asks for exactly that
    // much crosses
    let exact = vec![
        tipset(1, 1, Vec::new()),
        tipset(0, 1, vec![sample(40, 2_500_000_000)]),
    ];
    assert_eq!(estimate_gas_premium(&exact, 1, None), Ok(BigInt::from(41)));
    // one unit less, and the sweep never crosses: the fallback needs the noise
    let short = vec![
        tipset(1, 1, Vec::new()),
        tipset(0, 1, vec![sample(40, 2_499_999_999)]),
    ];
    assert_eq!(
        estimate_gas_premium(&short, 1, None),
        Err(EstimationError::NumericConversion)
    );
    assert_eq!(
        estimate_gas_premium(&short, 1, Some(BigInt::from(4_252_017_623u64))),
        Ok(BigInt::from(197_999))
    );
}

#[test]
fn later_crossing_and_fallback_take_the_noise() {
    let low = BigInt::from(4_252_017_623u64);
    let later = vec![
        tipset(1, 1, Vec::new()),
        tipset(
            0,
            1,
            vec![sample(1_000, 1_000_000_000), sample(500, 9_000_000_000)],
        ),
    ];
    assert_eq!(
        estimate_gas_premium(&later, 5, Some(noise_one())),
        Ok(BigInt::from(751))
    );
    assert_eq!(
        estimate_gas_premium(&later, 5, Some(low.clone())),
        Ok(BigInt::from(743))
    );
    assert_eq!(
        estimate_gas_premium(&later, 5, None),
        Err(EstimationError::NumericConversion)
    );
    // behind a first sample, a midpoint of one does not survive a factor
    // below one
    let cheap = vec![
        tipset(1, 1, Vec::new()),
        tipset(
            0,
            1,
            vec![sample(0, 1_000_000_000), sample(0, 9_000_000_000)],
        ),
    ];
    assert_eq!(
        estimate_gas_premium(&cheap, 5, Some(noise_one())),
        Ok(BigInt::from(1))
    );
    assert_eq!(
        estimate_gas_premium(&cheap, 5, Some(low)),
        Ok(BigInt::from(0))
    );
}

#[test]
fn first_crossing_is_told_from_the_sorted_samples() {
    let sorted = vec![sample(9, 30), sample(4, 100)];
    assert!(crosses_at_first(&sorted, &BigInt::from(30)));
    assert!(crosses_at_first(&sorted, &BigInt::from(-1)));
    assert!(!crosses_at_first(&sorted, &BigInt::from(31)));
    assert!(!crosses_at_first(&Vec::new(), &BigInt::from(0)));
}

#[test]
fn final_premium_from_samples_and_from_a_walk() {
    let low = BigInt::from(4_252_017_623u64);
    // met in this order, the high bidder is second; sorted it is first, and
    // it uses the budget of two blocks, 5e9, up by itself
    let samples = vec![sample(10, 1), sample(600, 5_000_000_000)];
    let blocks = BigInt::from(2);
    assert_eq!(
        premium_with_noise(&samples, &blocks, 1, Some(low.clone())),
        Ok(BigInt::from(601))
    );
    assert_eq!(
        premium_with_noise(&samples, &blocks, 1, None),
        Ok(BigInt::from(601))
    );
    // with three blocks the budget is 7.5e9 and nothing crosses
    let blocks = BigInt::from(3);
    assert_eq!(
        premium_with_noise(&samples, &blocks, 2, Some(low.clone())),
        Ok(BigInt::from(148_499))
    );
    assert_eq!(
        premium_with_noise(&samples, &blocks, 2, None),
        Err(EstimationError::NumericConversion)
    );

    let mut walk = PremiumWalk::new(2);
    assert_eq!(walk.num_blocks_included(), 2);
    walk.absorb(&tipset(4, 1, vec![sample(10, 1)]));
    walk.absorb(&tipset(3, 1, vec![sample(600, 5_000_000_000)]));
    assert_eq!(
        premium_from_walk(&walk, Some(low.clone())),
        Ok(BigInt::from(601))
    );
    assert_eq!(premium_from_walk(&walk, None), Ok(BigInt::from(601)));
    walk.absorb(&tipset(2, 1, Vec::new()));
    assert_eq!(
        premium_from_walk(&walk, Some(low)),
        Ok(BigInt::from(148_499))
    );
    assert_eq!(
        premium_from_walk(&walk, None),
        Err(EstimationError::NumericConversion)
    );
}
