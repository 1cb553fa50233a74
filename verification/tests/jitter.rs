use gas_engine::chain::TipsetSummary;
use gas_engine::premium::estimate_gas_premium;
use num_bigint::BigInt;
use num_traits::FromPrimitive;
use rand::rngs::StdRng;
use rand::SeedableRng;
use rand_distr::{Distribution, Normal};

fn quiet_chain() -> Vec<TipsetSummary> {
    (0..7)
        .map(|i| TipsetSummary {
            epoch: 50 - i,
            block_count: 1,
            parent_base_fee: BigInt::from(100),
            messages: Vec::new(),
        })
        .collect()
}

/// The noise factor as the node draws it, from a source with a fixed seed.
fn draw(rng: &mut StdRng) -> Option<BigInt> {
    // mean 1, stddev 0.005 => 95% within +-1%
    let noise: f64 = Normal::new(1.0, 0.005).unwrap().sample(rng);
    BigInt::from_f64(noise * (1i64 << 32) as f64)
}

#[test]
fn fallback_stays_near_the_table_under_drawn_noise() {
    let mut rng = StdRng::seed_from_u64(901);
    let chain = quiet_chain();
    let table = [(1u64, 200_000i64), (2, 150_000), (3, 100_000)];
    let mut within_one_percent = 0;
    let rounds = 300;
    for _ in 0..rounds {
        for (blocks, base) in table {
            let premium = estimate_gas_premium(&chain, blocks, draw(&mut rng)).unwrap();
            assert!(premium > BigInt::from(0));
            // eight standard deviations
            assert!(premium >= BigInt::from(base * 96 / 100));
            assert!(premium <= BigInt::from(base * 104 / 100));
            if premium >= BigInt::from(base * 99 / 100 - 1)
                && premium <= BigInt::from(base * 101 / 100)
            {
                within_one_percent += 1;
            }
        }
    }
    // some nineteen in twenty fall within one part in a hundred
    assert!(within_one_percent * 10 >= rounds * 3 * 9);
}
