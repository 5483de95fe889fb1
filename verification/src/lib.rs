//! Real-time pub/sub fan-out gateway core.
//!
//! Relays append-only event streams (NFT, donation and trade activity) from a
//! durable log into live, filterable push feeds: a per-channel stream consumer
//! with a resumable cursor, a fan-out hub of subscriber handles, and a
//! per-connection session applying a client-supplied filter and a heartbeat
//! policy. Per-domain event schemas and their filter predicates live in the
//! domain modules.

pub mod consumer;
pub mod hub;
pub mod json;
pub mod nft_events;
pub mod potlock_events;
pub mod session;
pub mod text;
pub mod trade_events;

use vstd::prelude::*;

verus! {

pub type TransactionId = String;

pub type ReceiptId = String;

pub type AccountId = String;

pub type NftTokenId = String;

pub type BlockHeight = u64;

pub type Balance = String;

pub type TimestampMs = u64;

pub type DonationId = u64;

pub type ProjectId = String;

pub type PoolId = String;

} // verus!
