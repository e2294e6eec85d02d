//! Client side of a display-server connection handshake: a length-prefixed,
//! byte-order-negotiated binary protocol spoken over a byte stream to
//! establish a session before any further protocol traffic.
//!
//! The crate is split in two layers:
//! - [`codec`]: byte-order-aware encoding and decoding of 8/16/32-bit
//!   integers and 4-byte alignment padding, with no protocol knowledge;
//! - [`engine`]: assembly of the connection-setup request and the response
//!   state machine that turns server replies into a terminal outcome.
#[allow(unused_imports)]
use vstd::prelude::*;

pub mod codec;
pub mod engine;
pub mod types;

verus! {

} // verus!
