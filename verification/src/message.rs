//! Unsigned messages and the receipts of their simulated runs.

use vstd::prelude::*;
use num_bigint::BigInt;
use crate::bigint::big_value;

verus! {

/// An unsigned message. The estimators read all of it and rewrite nothing but
/// the three gas fields, in each of which zero means "not set".
#[derive(Debug, Clone, PartialEq, Eq)]
pub struct Message {
    /// Version of the message format.
    pub version: i64,
    /// Sender, in the byte encoding of its address.
    pub from: Vec<u8>,
    /// Receiver, in the byte encoding of its address.
    pub to: Vec<u8>,
    /// Nonce of the sender.
    pub sequence: u64,
    /// Amount sent along.
    pub value: BigInt,
    /// Method called on the receiver.
    pub method_num: u64,
    /// Parameters of the call, opaque to the estimators.
    pub params: Vec<u8>,
    /// The most gas the message may use.
    pub gas_limit: i64,
    /// The most the sender pays for a unit of gas, base fee and premium
    /// together.
    pub gas_fee_cap: BigInt,
    /// What the sender pays for a unit of gas on top of the base fee.
    pub gas_premium: BigInt,
}

/// A message over integers and byte sequences.
pub struct MessageModel {
    pub version: int,
    pub from: Seq<u8>,
    pub to: Seq<u8>,
    pub sequence: int,
    pub value: int,
    pub method_num: int,
    pub params: Seq<u8>,
    pub gas_limit: int,
    pub gas_fee_cap: int,
    pub gas_premium: int,
}

impl View for Message {
    type V = MessageModel;

    open spec fn view(&self) -> MessageModel {
        MessageModel {
            version: self.version as int,
            from: self.from@,
            to: self.to@,
            sequence: self.sequence as int,
            value: big_value(self.value),
            method_num: self.method_num as int,
            params: self.params@,
            gas_limit: self.gas_limit as int,
            gas_fee_cap: big_value(self.gas_fee_cap),
            gas_premium: big_value(self.gas_premium),
        }
    }
}

impl MessageModel {
    /// The message with its three gas fields replaced.
    pub open spec fn with_gas(self, gas_limit: int, gas_fee_cap: int, gas_premium: int) -> Self {
        MessageModel { gas_limit, gas_fee_cap, gas_premium, ..self }
    }
}

/// A copy of `msg`.
pub fn clone_message(msg: &Message) -> (r: Message)
    ensures
        r@ == msg@,
{
    let r = Message {
        version: msg.version,
        from: msg.from.clone(),
        to: msg.to.clone(),
        sequence: msg.sequence,
        value: msg.value.clone(),
        method_num: msg.method_num,
        params: msg.params.clone(),
        gas_limit: msg.gas_limit,
        gas_fee_cap: msg.gas_fee_cap.clone(),
        gas_premium: msg.gas_premium.clone(),
    };
    assert(r.from@ =~= msg.from@);
    assert(r.to@ =~= msg.to@);
    assert(r.params@ =~= msg.params@);
    r
}

/// What a simulated run of a message left behind.
#[derive(Debug, Clone, Copy, PartialEq, Eq, Structural)]
pub struct Receipt {
    /// Exit status; zero for success.
    pub exit_code: u32,
    /// Gas that the run used.
    pub gas_used: i64,
}

} // verus!
