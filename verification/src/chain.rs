//! The part of the chain that the premium estimate reads, and the walk back
//! along it.
//!
//! The walk starts at the heaviest tipset and follows parent links. It takes
//! at most twice as many steps as blocks of inclusion delay are aimed at, and
//! ends early at the tipset of epoch zero, which has no parent. Each step
//! reaches one ancestor; the blocks and messages of the ancestors reached are
//! what the estimate works on. The heaviest tipset itself is only the
//! starting point.

use vstd::prelude::*;
use num_bigint::BigInt;
use crate::bigint::{big_add, big_from_i64, big_from_u64, big_option_value, big_value};
use crate::error::EstimationError;
use crate::premium::inclusion_blocks;
use crate::sample::{clone_sample, samples_model, PriceSample, SampleModel};

verus! {

/// What the estimate reads of one tipset.
#[derive(Debug, Clone, PartialEq, Eq)]
pub struct TipsetSummary {
    /// Epoch of the tipset; zero for genesis.
    pub epoch: i64,
    /// Number of blocks in the tipset.
    pub block_count: usize,
    /// Base fee that the blocks of the tipset share.
    pub parent_base_fee: BigInt,
    /// Premium and gas limit of every message of the tipset, in the order in
    /// which the tipset holds them.
    pub messages: Vec<PriceSample>,
}

/// A tipset summary over integers.
pub struct TipsetModel {
    pub epoch: int,
    pub block_count: int,
    pub parent_base_fee: int,
    pub messages: Seq<SampleModel>,
}

impl View for TipsetSummary {
    type V = TipsetModel;

    open spec fn view(&self) -> TipsetModel {
        TipsetModel {
            epoch: self.epoch as int,
            block_count: self.block_count as int,
            parent_base_fee: big_value(self.parent_base_fee),
            messages: samples_model(self.messages@),
        }
    }
}

/// A chain as the walk sees it: the heaviest tipset first, then its parent,
/// then the parent of that, as far as the store holds them.
pub open spec fn chain_model(chain: Seq<TipsetSummary>) -> Seq<TipsetModel> {
    chain.map_values(|t: TipsetSummary| t@)
}

/// The base fee of the heaviest tipset, where the chain has one.
pub open spec fn heaviest_base_fee(chain: Seq<TipsetModel>) -> Option<int> {
    if chain.len() > 0 {
        Some(chain[0].parent_base_fee)
    } else {
        None
    }
}

/// The base fee of the heaviest tipset of `chain`, which holds the heaviest
/// tipset first; nothing for an empty chain.
pub fn parent_base_fee(chain: &Vec<TipsetSummary>) -> (r: Option<BigInt>)
    ensures
        big_option_value(r) == heaviest_base_fee(chain_model(chain@)),
{
    if chain.len() > 0 {
        assert(chain_model(chain@)[0] == chain@[0]@);
        Some(chain[0].parent_base_fee.clone())
    } else {
        None
    }
}

/// The most steps a walk takes for the given inclusion delay.
pub open spec fn max_walk_steps(num_blocks_included: u64) -> int {
    2 * inclusion_blocks(num_blocks_included)
}

/// Whether the walk along `chain` ends at position `k`, having taken `k`
/// steps: no tipset before it is of epoch zero, and either the steps are used
/// up or this one is of epoch zero.
pub open spec fn walk_stops_at(chain: Seq<TipsetModel>, max_steps: int, k: int) -> bool {
    &&& 0 <= k <= max_steps
    &&& k < chain.len()
    &&& forall|i: int| 0 <= i < k ==> (#[trigger] chain[i]).epoch != 0
    &&& (k == max_steps || chain[k].epoch == 0)
}

/// Whether the walk along `chain` runs out of chain: it has steps left at
/// every tipset there is, none of them is of epoch zero, and so it asks for a
/// tipset that is not there. An empty chain, with no heaviest tipset, is the
/// first case of this.
pub open spec fn ancestor_missing(chain: Seq<TipsetModel>, max_steps: int) -> bool {
    &&& chain.len() <= max_steps
    &&& forall|i: int| 0 <= i < chain.len() ==> (#[trigger] chain[i]).epoch != 0
}

/// The position at which the walk along `chain` stops, or nothing where it
/// runs out of chain.
pub open spec fn walk_end(chain: Seq<TipsetModel>, max_steps: int) -> Option<int> {
    if exists|k: int| walk_stops_at(chain, max_steps, k) {
        Some(choose|k: int| walk_stops_at(chain, max_steps, k))
    } else {
        None
    }
}

/// The samples of the ancestors at positions 1 to `k`, nearest ancestor
/// first, each tipset's messages in their own order.
pub open spec fn samples_through(chain: Seq<TipsetModel>, k: int) -> Seq<SampleModel>
    decreases k,
{
    if k <= 0 {
        Seq::empty()
    } else {
        samples_through(chain, k - 1) + chain[k].messages
    }
}

/// The number of blocks of the ancestors at positions 1 to `k`.
pub open spec fn blocks_through(chain: Seq<TipsetModel>, k: int) -> int
    decreases k,
{
    if k <= 0 {
        0
    } else {
        blocks_through(chain, k - 1) + chain[k].block_count
    }
}

/// A walk either runs out of chain or stops at exactly one position, never
/// both.
pub proof fn lemma_walk_ends_one_way(chain: Seq<TipsetModel>, max_steps: int)
    requires
        0 <= max_steps,
    ensures
        ancestor_missing(chain, max_steps) <==> !exists|k: int|
            walk_stops_at(chain, max_steps, k),
        forall|k: int, m: int|
            walk_stops_at(chain, max_steps, k) && walk_stops_at(chain, max_steps, m) ==> k == m,
        ancestor_missing(chain, max_steps) <==> walk_end(chain, max_steps) is None,
        forall|k: int|
            walk_stops_at(chain, max_steps, k) ==> walk_end(chain, max_steps) == Some(k),
{
    assert forall|k: int, m: int|
        walk_stops_at(chain, max_steps, k) && walk_stops_at(chain, max_steps, m) implies k
        == m by {
        if k < m {
            assert(chain[k].epoch != 0);
        } else if m < k {
            assert(chain[m].epoch != 0);
        }
    }
    if ancestor_missing(chain, max_steps) {
        assert forall|k: int| !walk_stops_at(chain, max_steps, k) by {
            if walk_stops_at(chain, max_steps, k) {
                assert(chain[k].epoch != 0);
            }
        }
    } else {
        lemma_walk_stops_somewhere(chain, max_steps, 0);
    }
}

/// A walk that has come as far as position `from` without meeting epoch zero
/// and does not run out of chain stops somewhere.
proof fn lemma_walk_stops_somewhere(chain: Seq<TipsetModel>, max_steps: int, from: int)
    requires
        0 <= from <= max_steps,
        from <= chain.len(),
        forall|i: int| 0 <= i < from ==> (#[trigger] chain[i]).epoch != 0,
        !ancestor_missing(chain, max_steps),
    ensures
        exists|k: int| walk_stops_at(chain, max_steps, k),
    decreases chain.len() - from,
{
    if from == chain.len() {
        assert(ancestor_missing(chain, max_steps));
    } else if from == max_steps || chain[from].epoch == 0 {
        assert(walk_stops_at(chain, max_steps, from));
    } else {
        lemma_walk_stops_somewhere(chain, max_steps, from + 1);
    }
}

/// What a walk has gathered so far.
pub struct WalkModel {
    /// Steps taken.
    pub steps: int,
    /// The inclusion delay that the walk was started for.
    pub num_blocks_included: u64,
    /// Blocks of the ancestors reached.
    pub blocks: int,
    /// Samples of the ancestors reached.
    pub samples: Seq<SampleModel>,
}

impl WalkModel {
    /// Steps allowed.
    pub open spec fn max_steps(self) -> int {
        max_walk_steps(self.num_blocks_included)
    }
}

/// What the driver of a walk does next.
#[derive(Debug, Clone, Copy, PartialEq, Eq, Structural)]
pub enum WalkStep {
    /// Load the parent of the tipset the walk stands at, and hand it over.
    LoadParent,
    /// The walk is over.
    Finish,
}

/// A walk back along the chain, driven from outside: the driver asks
/// [`PremiumWalk::next_step`] what to do at the tipset it stands at, loads the
/// parent when told to, and hands it to [`PremiumWalk::absorb`].
pub struct PremiumWalk {
    steps: u128,
    num_blocks_included: u64,
    blocks: BigInt,
    samples: Vec<PriceSample>,
}

impl View for PremiumWalk {
    type V = WalkModel;

    closed spec fn view(&self) -> WalkModel {
        WalkModel {
            steps: self.steps as int,
            num_blocks_included: self.num_blocks_included,
            blocks: big_value(self.blocks),
            samples: samples_model(self.samples@),
        }
    }
}

impl PremiumWalk {
    /// A walk that has not left the heaviest tipset yet.
    pub fn new(num_blocks_included: u64) -> (walk: PremiumWalk)
        ensures
            walk@ == (WalkModel {
                steps: 0,
                num_blocks_included,
                blocks: 0,
                samples: Seq::empty(),
            }),
    {
        let walk = PremiumWalk {
            steps: 0,
            num_blocks_included,
            blocks: big_from_i64(0),
            samples: Vec::new(),
        };
        assert(samples_model(walk.samples@) =~= Seq::<SampleModel>::empty());
        walk
    }

    /// The most steps the walk takes.
    fn steps_allowed(&self) -> (r: u128)
        ensures
            r == self@.max_steps(),
    {
        let blocks: u128 = if self.num_blocks_included == 0 {
            1
        } else {
            self.num_blocks_included as u128
        };
        2 * blocks
    }

    /// The inclusion delay that the walk was started for.
    pub fn num_blocks_included(&self) -> (r: u64)
        ensures
            r == self@.num_blocks_included,
    {
        self.num_blocks_included
    }

    /// What to do at a tipset of the given epoch: go on to its parent while
    /// steps are left and the epoch is not zero.
    pub fn next_step(&self, epoch: i64) -> (step: WalkStep)
        ensures
            step == if self@.steps < self@.max_steps() && epoch != 0 {
                WalkStep::LoadParent
            } else {
                WalkStep::Finish
            },
    {
        if self.steps < self.steps_allowed() && epoch != 0 {
            WalkStep::LoadParent
        } else {
            WalkStep::Finish
        }
    }

    /// Takes one step, to `parent`: its blocks are counted and its samples
    /// are put behind those gathered before.
    pub fn absorb(&mut self, parent: &TipsetSummary)
        requires
            old(self)@.steps < old(self)@.max_steps(),
        ensures
            final(self)@ == (WalkModel {
                steps: old(self)@.steps + 1,
                num_blocks_included: old(self)@.num_blocks_included,
                blocks: old(self)@.blocks + parent@.block_count,
                samples: old(self)@.samples + parent@.messages,
            }),
    {
        let count = big_from_u64(parent.block_count as u64);
        self.blocks = big_add(&self.blocks, &count);
        self.steps = self.steps + 1;
        let ghost before = self.samples@;
        let mut i: usize = 0;
        while i < parent.messages.len()
            invariant
                i <= parent.messages.len(),
                samples_model(self.samples@) == samples_model(before) + samples_model(
                    parent.messages@,
                ).take(i as int),
                self.steps == old(self).steps + 1,
                self.num_blocks_included == old(self).num_blocks_included,
                big_value(self.blocks) == big_value(old(self).blocks) + parent.block_count,
            decreases parent.messages.len() - i,
        {
            let sample = clone_sample(&parent.messages[i]);
            proof {
                let all = samples_model(parent.messages@);
                assert(all.take(i + 1) =~= all.take(i as int).push(sample@));
                assert(samples_model(self.samples@.push(sample)) =~= samples_model(
                    self.samples@,
                ).push(sample@));
            }
            self.samples.push(sample);
            i += 1;
        }
        proof {
            let all = samples_model(parent.messages@);
            assert(all.take(i as int) =~= all);
        }
    }

    /// The samples gathered, in the order in which they were met.
    pub fn samples(&self) -> (r: &Vec<PriceSample>)
        ensures
            samples_model(r@) == self@.samples,
    {
        &self.samples
    }

    /// The number of blocks of the ancestors reached.
    pub fn blocks(&self) -> (r: &BigInt)
        ensures
            big_value(*r) == self@.blocks,
    {
        &self.blocks
    }
}

/// Walks back along `chain`, which holds the heaviest tipset first and then
/// each tipset's parent, and gathers the blocks and samples of the ancestors
/// reached. Fails where the walk asks for a tipset that the chain does not
/// hold.
pub fn walk_chain(chain: &Vec<TipsetSummary>, num_blocks_included: u64) -> (r: Result<
    PremiumWalk,
    EstimationError,
>)
    ensures
        match walk_end(chain_model(chain@), max_walk_steps(num_blocks_included)) {
            None => r is Err && r->Err_0 == EstimationError::ChainStateUnavailable,
            Some(k) => r is Ok && r->Ok_0@ == (WalkModel {
                steps: k,
                num_blocks_included,
                blocks: blocks_through(chain_model(chain@), k),
                samples: samples_through(chain_model(chain@), k),
            }),
        },
{
    let ghost cm = chain_model(chain@);
    let ghost max_steps = max_walk_steps(num_blocks_included);
    let mut walk = PremiumWalk::new(num_blocks_included);
    let mut at: usize = 0;
    proof {
        lemma_walk_ends_one_way(cm, max_steps);
    }
    if chain.len() == 0 {
        assert(ancestor_missing(cm, max_steps));
        return Err(EstimationError::ChainStateUnavailable);
    }
    loop
        invariant
            cm == chain_model(chain@),
            max_steps == max_walk_steps(num_blocks_included),
            at < chain.len(),
            forall|i: int| 0 <= i < at ==> (#[trigger] cm[i]).epoch != 0,
            walk@ == (WalkModel {
                steps: at as int,
                num_blocks_included,
                blocks: blocks_through(cm, at as int),
                samples: samples_through(cm, at as int),
            }),
            at <= max_steps,
            ancestor_missing(cm, max_steps) <==> walk_end(cm, max_steps) is None,
            forall|k: int| walk_stops_at(cm, max_steps, k) ==> walk_end(cm, max_steps) == Some(k),
        decreases chain.len() - at,
    {
        assert(cm[at as int] == chain@[at as int]@);
        match walk.next_step(chain[at].epoch) {
            WalkStep::Finish => {
                assert(walk_stops_at(cm, max_steps, at as int));
                return Ok(walk);
            },
            WalkStep::LoadParent => {
                if at + 1 == chain.len() {
                    assert(ancestor_missing(cm, max_steps));
                    return Err(EstimationError::ChainStateUnavailable);
                }
                assert(cm[at + 1] == chain@[at + 1]@);
                walk.absorb(&chain[at + 1]);
                at += 1;
            },
        }
    }
}

} // verus!
