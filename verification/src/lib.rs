//! Gas estimation for unsigned messages on a chain with a base-fee gas
//! market, together with the checksum and digest helpers a node needs when it
//! fetches snapshots and proof parameters.

pub mod bigint;
pub mod chain;
pub mod checksum;
pub mod composer;
pub mod download;
pub mod error;
pub mod fee_cap;
pub mod gas_limit;
pub mod message;
pub mod params;
pub mod premium;
pub mod proof_params;
pub mod sample;
pub mod snapshot;
pub mod multisig;
