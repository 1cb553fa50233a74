//! The gas limit estimate.
//!
//! The message is run against a simulated state, behind the messages that its
//! sender already has pending, with so generous an allowance that the run is
//! never short of gas. What the run used, plus a fixed buffer, is the
//! estimate.

use vstd::prelude::*;
use crate::bigint::big_from_i64;
use crate::error::EstimationError;
use crate::message::{clone_message, Message, MessageModel, Receipt};
use crate::params::{BLOCK_GAS_LIMIT, GAS_OVERESTIMATION_BUFFER, MINIMUM_BASE_FEE};

verus! {

/// The result that stands for "could not estimate": the run left no receipt,
/// or the message failed.
pub const NO_ESTIMATE: i64 = -1;

/// The message as it is simulated: the gas limit of a whole block, a fee cap
/// just above the minimum base fee and a premium of one.
pub open spec fn simulated(msg: MessageModel) -> MessageModel {
    msg.with_gas(BLOCK_GAS_LIMIT as int, MINIMUM_BASE_FEE + 1, 1)
}

/// The estimate that a simulated run gives: no estimate where it left no
/// receipt or the message exited with a non-zero status, else the gas used
/// plus the buffer.
pub open spec fn limit_from_receipt(receipt: Option<Receipt>) -> int {
    match receipt {
        None => NO_ESTIMATE as int,
        Some(rct) => if rct.exit_code != 0 {
            NO_ESTIMATE as int
        } else {
            rct.gas_used + GAS_OVERESTIMATION_BUFFER
        },
    }
}

/// Prepares `msg` for simulation: a copy with the gas fields set so that the
/// run is never short of gas.
pub fn simulation_message(msg: &Message) -> (r: Message)
    ensures
        r@ == simulated(msg@),
{
    let mut r = clone_message(msg);
    r.gas_limit = BLOCK_GAS_LIMIT;
    r.gas_fee_cap = big_from_i64(MINIMUM_BASE_FEE + 1);
    r.gas_premium = big_from_i64(1);
    r
}

/// What is handed to the executor.
pub struct Simulation<P, T> {
    /// The message, prepared for simulation.
    pub message: Message,
    /// The sender's pending messages, which run first, in their order.
    pub prior_messages: Vec<P>,
    /// The tipset on whose state the run starts.
    pub tipset: T,
}

/// Plans the simulated run of `msg` from what the chain and the message pool
/// gave.
///
/// `heaviest` is the heaviest tipset, `sender_resolved` tells whether the
/// sender's key address could be resolved against it, `pending` holds the
/// sender's pending messages where the pool has any, and `pool_tipset` is the
/// tipset that the pool currently simulates on. The run starts on the pool's
/// tipset, or on the heaviest one where the pool has none.
///
/// Fails with `ChainStateUnavailable` without a heaviest tipset, and with
/// `AddressResolution` where the sender could not be resolved.
pub fn plan_simulation<P, T>(
    msg: &Message,
    heaviest: Option<T>,
    sender_resolved: bool,
    pending: Option<Vec<P>>,
    pool_tipset: Option<T>,
) -> (r: Result<Simulation<P, T>, EstimationError>)
    ensures
        heaviest is None ==> r is Err && r->Err_0 == EstimationError::ChainStateUnavailable,
        heaviest is Some && !sender_resolved ==> r is Err && r->Err_0
            == EstimationError::AddressResolution,
        heaviest is Some && sender_resolved ==> r is Ok && r->Ok_0.message@ == simulated(msg@)
            && r->Ok_0.prior_messages@ == (match pending {
            Some(p) => p@,
            None => Seq::empty(),
        }) && r->Ok_0.tipset == (match pool_tipset {
            Some(t) => t,
            None => heaviest->Some_0,
        }),
{
    let heaviest = match heaviest {
        Some(t) => t,
        None => {
            return Err(EstimationError::ChainStateUnavailable);
        },
    };
    if !sender_resolved {
        return Err(EstimationError::AddressResolution);
    }
    let prior_messages = match pending {
        Some(p) => p,
        None => Vec::new(),
    };
    let tipset = match pool_tipset {
        Some(t) => t,
        None => heaviest,
    };
    Ok(Simulation { message: simulation_message(msg), prior_messages, tipset })
}

/// Reads the estimate off the receipt of a simulated run: `NO_ESTIMATE` where
/// there is none or the message exited with a non-zero status, else the gas
/// used plus the buffer.
pub fn gas_limit_from_receipt(receipt: Option<Receipt>) -> (r: i64)
    requires
        receipt is Some && receipt->Some_0.exit_code == 0 ==> receipt->Some_0.gas_used
            + GAS_OVERESTIMATION_BUFFER <= i64::MAX,
    ensures
        r == limit_from_receipt(receipt),
{
    match receipt {
        None => NO_ESTIMATE,
        Some(rct) => {
            if rct.exit_code != 0 {
                NO_ESTIMATE
            } else {
                rct.gas_used + GAS_OVERESTIMATION_BUFFER
            }
        },
    }
}

/// Whether the estimate for `receipt` fits the result type.
pub open spec fn receipt_in_range(receipt: Option<Receipt>) -> bool {
    receipt is Some && receipt->Some_0.exit_code == 0 ==> receipt->Some_0.gas_used
        + GAS_OVERESTIMATION_BUFFER <= i64::MAX
}

/// Estimates the gas limit from what the executor returned: the receipt of
/// the run where it left one, or nothing at all where the simulation itself
/// failed. The latter is an `Executor` error; a message that fails is not.
/// What the executor is asked to run, behind which messages and on which
/// tipset, is settled by [`plan_simulation`].
pub fn estimate_gas_limit(execution: Result<Option<Receipt>, ()>) -> (r: Result<
    i64,
    EstimationError,
>)
    requires
        execution is Ok ==> receipt_in_range(execution->Ok_0),
    ensures
        match execution {
            Ok(receipt) => r == Ok::<i64, EstimationError>(limit_from_receipt(receipt) as i64),
            Err(_) => r == Err::<i64, EstimationError>(EstimationError::Executor),
        },
{
    match execution {
        Ok(receipt) => Ok(gas_limit_from_receipt(receipt)),
        Err(_) => Err(EstimationError::Executor),
    }
}

} // verus!
