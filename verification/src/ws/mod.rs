//! Real-time opcode WebSocket transport: the frame codec and the per-session
//! protocol state machine.

pub mod codec;
pub mod session;

use vstd::prelude::*;

verus! {

/// The path the WebSocket endpoint is served on.
pub const DEFAULT_PATH: &'static str = "/ws";

} // verus!
