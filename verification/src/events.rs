//! Structured events for indexers: each `emit_*` function builds the event
//! that the host publishes under its topic and the creator's address.
use vstd::prelude::*;

verus! {

/// Schema version of the events.
pub const EVENT_VERSION: u32 = 1;

/// A tip sent to a creator.
#[derive(Clone, Copy, Debug, PartialEq, Eq)]
pub struct TipEvent {
    pub version: u32,
    pub event_id: u64,
    pub timestamp: u64,
    pub sender: u64,
    pub creator: u64,
    pub amount: i128,
    pub token: u64,
}

/// A creator's withdrawal.
#[derive(Clone, Copy, Debug, PartialEq, Eq)]
pub struct WithdrawEvent {
    pub version: u32,
    pub creator: u64,
    pub amount: i128,
    pub token: u64,
    pub timestamp: u64,
}

/// A platform fee taken from a tip.
#[derive(Clone, Copy, Debug, PartialEq, Eq)]
pub struct FeeEvent {
    pub version: u32,
    pub creator: u64,
    pub token: u64,
    pub amount: i128,
    pub fee_bps: u32,
    pub timestamp: u64,
}

/// The tip event with `event_id` at `now`, published under topic `tip`.
pub fn emit_tip_event(now: u64, event_id: u64, sender: u64, creator: u64, amount: i128, token: u64) -> (e: TipEvent)
    ensures
        e == (TipEvent { version: EVENT_VERSION, event_id, timestamp: now, sender, creator, amount, token }),
{
    TipEvent { version: EVENT_VERSION, event_id, timestamp: now, sender, creator, amount, token }
}

/// The withdraw event at `now`, published under topic `withdraw`.
pub fn emit_withdraw_event(now: u64, creator: u64, amount: i128, token: u64) -> (e: WithdrawEvent)
    ensures
        e == (WithdrawEvent { version: EVENT_VERSION, creator, amount, token, timestamp: now }),
{
    WithdrawEvent { version: EVENT_VERSION, creator, amount, token, timestamp: now }
}

/// The fee event at `now`, published under topic `fee`.
pub fn emit_fee_event(now: u64, creator: u64, token: u64, amount: i128, fee_bps: u32) -> (e: FeeEvent)
    ensures
        e == (FeeEvent { version: EVENT_VERSION, creator, token, amount, fee_bps, timestamp: now }),
{
    FeeEvent { version: EVENT_VERSION, creator, token, amount, fee_bps, timestamp: now }
}

} // verus!
