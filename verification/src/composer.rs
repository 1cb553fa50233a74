//! Filling in the gas fields of a message.
//!
//! Only the fields that are zero are estimated; what the caller set stays as
//! it is. The order is fixed: the gas limit first, then the premium, then the
//! fee cap, which builds on the premium as it then stands, set by the caller
//! or just estimated.

use vstd::prelude::*;
use num_bigint::BigInt;
use crate::bigint::{big_is_zero, big_option_value, big_value};
use crate::chain::{chain_model, heaviest_base_fee, parent_base_fee, TipsetSummary};
use crate::error::EstimationError;
use crate::fee_cap::{estimate_fee_cap, fee_cap_estimate, lemma_fee_cap_is_positive};
use crate::message::{Message, MessageModel};
use crate::params::{DEFAULT_INCLUSION_BLOCKS, DEFAULT_MAX_QUEUE_BLOCKS};
use crate::premium::{estimate_gas_premium, premium_estimate};

verus! {

/// What the driver of a [`Composer`] does next.
#[derive(Debug, Clone, Copy, PartialEq, Eq, Structural)]
pub enum GasStep {
    /// Estimate the gas limit and supply it.
    EstimateLimit,
    /// Estimate the premium for the given inclusion delay and supply it.
    EstimatePremium { num_blocks_included: u64 },
    /// Estimate the fee cap for the message's premium and the given number of
    /// blocks of waiting, and supply it.
    EstimateFeeCap { max_queue_blocks: i64 },
    /// Nothing is left to estimate.
    Done,
}

/// How far a [`Composer`] has come. Each field gets one turn, in this order.
#[derive(Debug, Clone, Copy, PartialEq, Eq, Structural)]
pub enum Stage {
    /// The gas limit has not had its turn.
    Limit,
    /// The gas limit has; the premium has not.
    Premium,
    /// Limit and premium have; the fee cap has not.
    FeeCap,
    /// Every field has had its turn.
    Done,
}

/// The step that is due for a message at a stage: the first field, from the
/// stage on, that is zero.
pub open spec fn step_due(msg: MessageModel, stage: Stage) -> GasStep {
    if stage is Limit && msg.gas_limit == 0 {
        GasStep::EstimateLimit
    } else if (stage is Limit || stage is Premium) && msg.gas_premium == 0 {
        GasStep::EstimatePremium { num_blocks_included: DEFAULT_INCLUSION_BLOCKS }
    } else if !(stage is Done) && msg.gas_fee_cap == 0 {
        GasStep::EstimateFeeCap { max_queue_blocks: DEFAULT_MAX_QUEUE_BLOCKS }
    } else {
        GasStep::Done
    }
}

/// A composer over a message model.
pub struct ComposerModel {
    pub message: MessageModel,
    pub stage: Stage,
}

/// Fills in the gas fields of a message, driven from outside: the driver asks
/// [`Composer::next_step`] what to estimate, does so, and supplies the result.
pub struct Composer {
    message: Message,
    stage: Stage,
}

impl View for Composer {
    type V = ComposerModel;

    closed spec fn view(&self) -> ComposerModel {
        ComposerModel { message: self.message@, stage: self.stage }
    }
}

impl Composer {
    /// Starts on `message`, with no field looked at yet.
    pub fn new(message: Message) -> (c: Composer)
        ensures
            c@ == (ComposerModel { message: message@, stage: Stage::Limit }),
    {
        Composer { message, stage: Stage::Limit }
    }

    /// The step that is due.
    pub fn next_step(&self) -> (step: GasStep)
        ensures
            step == step_due(self@.message, self@.stage),
    {
        let past_limit = !matches!(self.stage, Stage::Limit);
        let past_premium = past_limit && !matches!(self.stage, Stage::Premium);
        let past_fee_cap = matches!(self.stage, Stage::Done);
        if !past_limit && self.message.gas_limit == 0 {
            GasStep::EstimateLimit
        } else if !past_premium && big_is_zero(&self.message.gas_premium) {
            GasStep::EstimatePremium { num_blocks_included: DEFAULT_INCLUSION_BLOCKS }
        } else if !past_fee_cap && big_is_zero(&self.message.gas_fee_cap) {
            GasStep::EstimateFeeCap { max_queue_blocks: DEFAULT_MAX_QUEUE_BLOCKS }
        } else {
            GasStep::Done
        }
    }

    /// The message as it stands.
    pub fn message(&self) -> (m: &Message)
        ensures
            m@ == self@.message,
    {
        &self.message
    }

    /// Takes the estimated gas limit.
    pub fn supply_gas_limit(&mut self, gas_limit: i64)
        requires
            step_due(old(self)@.message, old(self)@.stage) is EstimateLimit,
        ensures
            final(self)@ == (ComposerModel {
                message: MessageModel { gas_limit: gas_limit as int, ..old(self)@.message },
                stage: Stage::Premium,
            }),
    {
        self.message.gas_limit = gas_limit;
        self.stage = Stage::Premium;
    }

    /// Takes the estimated premium.
    pub fn supply_gas_premium(&mut self, gas_premium: BigInt)
        requires
            step_due(old(self)@.message, old(self)@.stage) is EstimatePremium,
        ensures
            final(self)@ == (ComposerModel {
                message: MessageModel {
                    gas_premium: big_value(gas_premium),
                    ..old(self)@.message
                },
                stage: Stage::FeeCap,
            }),
    {
        self.message.gas_premium = gas_premium;
        self.stage = Stage::FeeCap;
    }

    /// Takes the estimated fee cap.
    pub fn supply_gas_fee_cap(&mut self, gas_fee_cap: BigInt)
        requires
            step_due(old(self)@.message, old(self)@.stage) is EstimateFeeCap,
        ensures
            final(self)@ == (ComposerModel {
                message: MessageModel {
                    gas_fee_cap: big_value(gas_fee_cap),
                    ..old(self)@.message
                },
                stage: Stage::Done,
            }),
    {
        self.message.gas_fee_cap = gas_fee_cap;
        self.stage = Stage::Done;
    }

    /// Hands the message back as it stands.
    pub fn finish(self) -> (m: Message)
        ensures
            m@ == self@.message,
    {
        self.message
    }
}

/// What the sender is willing to spend on a message. Accepted beside the
/// message and kept for the caller, who enforces it; the estimators do not
/// read it.
#[derive(Debug, Clone, PartialEq, Eq)]
pub struct MessageSendSpec {
    /// The most the sender pays in fees.
    pub max_fee: BigInt,
}

/// What was observed of the chain, the message pool and the executor for one
/// message: everything the three estimators work on.
pub struct Observations {
    /// The gas limit estimate for the message, or why there is none.
    pub gas_limit: Result<i64, EstimationError>,
    /// The chain, heaviest tipset first, as the premium estimate walks it.
    /// The fee cap builds on the base fee of its first tipset.
    pub chain: Vec<TipsetSummary>,
    /// The noise factor drawn for the premium, as a fixed-point integer;
    /// absent where it could not be turned into one.
    pub noise: Option<BigInt>,
    /// Growth factor of the base fee for the default number of blocks of
    /// waiting, as a fixed-point integer; absent where it could not be turned
    /// into one.
    pub growth: Option<BigInt>,
}

/// The gas limit that the message ends up with: its own where set, else the
/// estimate.
pub open spec fn limit_used(msg: MessageModel, gas_limit: Result<i64, EstimationError>) -> Result<
    int,
    EstimationError,
> {
    if msg.gas_limit != 0 {
        Ok(msg.gas_limit)
    } else {
        match gas_limit {
            Ok(l) => Ok(l as int),
            Err(e) => Err(e),
        }
    }
}

/// The premium that the message ends up with: its own where set, else the
/// estimate.
pub open spec fn premium_used(msg: MessageModel, premium: Result<int, EstimationError>) -> Result<
    int,
    EstimationError,
> {
    if msg.gas_premium != 0 {
        Ok(msg.gas_premium)
    } else {
        premium
    }
}

/// The message with its gas fields filled in, for the gas limit and premium
/// estimates given and the base fee and growth factor that the fee cap
/// builds on.
///
/// A field that is set stays, and its estimate is not looked at. Of the
/// estimates that are looked at, the first to fail, in the order limit,
/// premium, fee cap, is the outcome. The fee cap builds on the premium that
/// the message ends up with.
pub open spec fn message_gas_estimate(
    msg: MessageModel,
    gas_limit: Result<i64, EstimationError>,
    premium: Result<int, EstimationError>,
    parent_base_fee: Option<int>,
    growth: Option<int>,
) -> Result<MessageModel, EstimationError> {
    match limit_used(msg, gas_limit) {
        Err(e) => Err(e),
        Ok(limit) => match premium_used(msg, premium) {
            Err(e) => Err(e),
            Ok(gas_premium) => if msg.gas_fee_cap != 0 {
                Ok(msg.with_gas(limit, msg.gas_fee_cap, gas_premium))
            } else {
                match fee_cap_estimate(parent_base_fee, growth, gas_premium) {
                    Err(e) => Err(e),
                    Ok(cap) => Ok(msg.with_gas(limit, cap, gas_premium)),
                }
            },
        },
    }
}

/// A result with its message replaced by the message's model.
pub open spec fn message_result_model(r: Result<Message, EstimationError>) -> Result<
    MessageModel,
    EstimationError,
> {
    match r {
        Ok(m) => Ok(m@),
        Err(e) => Err(e),
    }
}

/// Fills in the gas fields of `msg` that are zero, from what was observed.
/// The spending policy `_spec` plays no part.
pub fn estimate_message_gas(
    msg: Message,
    _spec: Option<MessageSendSpec>,
    seen: Observations,
) -> (r: Result<Message, EstimationError>)
    ensures
        message_result_model(r) == message_gas_estimate(
            msg@,
            seen.gas_limit,
            premium_estimate(
                chain_model(seen.chain@),
                DEFAULT_INCLUSION_BLOCKS,
                big_option_value(seen.noise),
            ),
            heaviest_base_fee(chain_model(seen.chain@)),
            big_option_value(seen.growth),
        ),
{
    let Observations { gas_limit, chain, noise, growth } = seen;
    let mut composer = Composer::new(msg);
    if let GasStep::EstimateLimit = composer.next_step() {
        match gas_limit {
            Ok(limit) => composer.supply_gas_limit(limit),
            Err(e) => {
                return Err(e);
            },
        }
    }
    if let GasStep::EstimatePremium { num_blocks_included } = composer.next_step() {
        match estimate_gas_premium(&chain, num_blocks_included, noise) {
            Ok(premium) => composer.supply_gas_premium(premium),
            Err(e) => {
                return Err(e);
            },
        }
    }
    if let GasStep::EstimateFeeCap { max_queue_blocks: _ } = composer.next_step() {
        match estimate_fee_cap(
            parent_base_fee(&chain),
            growth,
            &composer.message().gas_premium,
        ) {
            Ok(cap) => composer.supply_gas_fee_cap(cap),
            Err(e) => {
                return Err(e);
            },
        }
    }
    Ok(composer.finish())
}

/// A message whose three gas fields are all set comes back as it went in,
/// whatever was observed: no estimate is looked at.
pub proof fn lemma_set_fields_stay(
    msg: MessageModel,
    gas_limit: Result<i64, EstimationError>,
    premium: Result<int, EstimationError>,
    parent_base_fee: Option<int>,
    growth: Option<int>,
)
    requires
        msg.gas_limit != 0,
        msg.gas_premium != 0,
        msg.gas_fee_cap != 0,
    ensures
        message_gas_estimate(msg, gas_limit, premium, parent_base_fee, growth) == Ok::<
            MessageModel,
            EstimationError,
        >(msg),
        step_due(msg, Stage::Limit) == GasStep::Done,
{
}

/// Filling in is idempotent: a message that was filled in comes back
/// unchanged from a second run, whatever is observed then, provided that no
/// estimate of the first run was zero.
pub proof fn lemma_filling_is_idempotent(
    msg: MessageModel,
    gas_limit: Result<i64, EstimationError>,
    premium: Result<int, EstimationError>,
    parent_base_fee: Option<int>,
    growth: Option<int>,
    gas_limit2: Result<i64, EstimationError>,
    premium2: Result<int, EstimationError>,
    parent_base_fee2: Option<int>,
    growth2: Option<int>,
)
    requires
        message_gas_estimate(msg, gas_limit, premium, parent_base_fee, growth) is Ok,
        message_gas_estimate(msg, gas_limit, premium, parent_base_fee, growth)->Ok_0.gas_limit
            != 0,
        message_gas_estimate(msg, gas_limit, premium, parent_base_fee, growth)->Ok_0.gas_premium
            != 0,
        message_gas_estimate(msg, gas_limit, premium, parent_base_fee, growth)->Ok_0.gas_fee_cap
            != 0,
    ensures
        message_gas_estimate(
            message_gas_estimate(msg, gas_limit, premium, parent_base_fee, growth)->Ok_0,
            gas_limit2,
            premium2,
            parent_base_fee2,
            growth2,
        ) == message_gas_estimate(msg, gas_limit, premium, parent_base_fee, growth),
{
}

/// With the premium set by the caller, the fee cap that is filled in builds
/// on that premium; the premium estimate plays no part.
pub proof fn lemma_fee_cap_builds_on_set_premium(
    msg: MessageModel,
    gas_limit: Result<i64, EstimationError>,
    premium: Result<int, EstimationError>,
    parent_base_fee: Option<int>,
    growth: Option<int>,
)
    requires
        msg.gas_premium != 0,
        msg.gas_fee_cap == 0,
        message_gas_estimate(msg, gas_limit, premium, parent_base_fee, growth) is Ok,
    ensures
        fee_cap_estimate(parent_base_fee, growth, msg.gas_premium) is Ok,
        message_gas_estimate(msg, gas_limit, premium, parent_base_fee, growth)->Ok_0.gas_fee_cap
            == fee_cap_estimate(parent_base_fee, growth, msg.gas_premium)->Ok_0,
        message_gas_estimate(msg, gas_limit, premium, parent_base_fee, growth)->Ok_0.gas_premium
            == msg.gas_premium,
{
}

/// A message that was filled in carries a premium and a fee cap above zero,
/// provided that the message came with none below zero, that the premium
/// estimate, where there is one, is above zero, and that neither the base fee
/// nor the growth factor is negative.
pub proof fn lemma_filled_fields_are_positive(
    msg: MessageModel,
    gas_limit: Result<i64, EstimationError>,
    premium: Result<int, EstimationError>,
    parent_base_fee: Option<int>,
    growth: Option<int>,
)
    requires
        message_gas_estimate(msg, gas_limit, premium, parent_base_fee, growth) is Ok,
        msg.gas_premium >= 0,
        msg.gas_fee_cap >= 0,
        premium is Ok ==> premium->Ok_0 > 0,
        parent_base_fee is Some ==> parent_base_fee->Some_0 >= 0,
        growth is Some ==> growth->Some_0 >= 0,
    ensures
        message_gas_estimate(msg, gas_limit, premium, parent_base_fee, growth)->Ok_0.gas_premium
            > 0,
        message_gas_estimate(msg, gas_limit, premium, parent_base_fee, growth)->Ok_0.gas_fee_cap
            > 0,
{
    let gas_premium = premium_used(msg, premium)->Ok_0;
    if msg.gas_fee_cap == 0 {
        lemma_fee_cap_is_positive(parent_base_fee->Some_0, growth->Some_0, gas_premium);
    }
}

} // verus!
