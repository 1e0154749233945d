//! Verified core of the tip-jar contract family: fee and interest
//! arithmetic, the tip-jar ledger state machine and its satellites.
use vstd::prelude::*;

pub mod num;
pub mod interest;
pub mod table;
pub mod common;
pub mod tipjar;
pub mod rental;
pub mod lottery;
pub mod aggregation;
pub mod royalty;
pub mod derivatives;
pub mod rent_model;
pub mod market_making;
pub mod arbitrage;
pub mod portfolio;
pub mod stop_loss;
pub mod access_lists;
pub mod lending;
pub mod recovery;
pub mod limit_orders;
pub mod risk;
pub mod tipjar_v2;
pub mod adversarial_token;
pub mod events;

verus! {
} // verus!
