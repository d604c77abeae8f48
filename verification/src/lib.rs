//! Core of a local SOCKS5 proxy gateway: the inbound protocol state
//! machine, the outbound handler registry, health-aware group selection,
//! the latency-prober scheduler, and the rule-matching abstraction.
use vstd::prelude::*;

pub mod addr;
pub mod buf;
pub mod error;
pub mod groups;
pub mod health;
pub mod manager;
pub mod ports;
pub mod rules;
pub mod session;
pub mod socks;

verus! {

/// Wire constant: the SOCKS protocol version this library speaks.
pub const SOCKS_VERSION: u8 = 5;

} // verus!
