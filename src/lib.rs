//! Machine lifecycle and remote session engine of a wake-on-LAN relay.
//!
//! The library holds the decisions: the reachability state machine, the
//! per-machine task queue, the agent control protocol and the steps of the
//! interactive session proxy. Network work (ping, ssh, websockets, timers)
//! is done by the caller, which hands the outcomes back as plain values.
use vstd::prelude::*;

pub mod state;
pub mod text;
pub mod config;
pub mod application;
pub mod messages;
pub mod responses;
pub mod wol;
pub mod session;
pub mod machine;
pub mod store;

verus! {

} // verus!
