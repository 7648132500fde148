//! Peers that talk over WebRTC data channels, and the signalling that brings
//! them together.

use vstd::prelude::*;

pub mod alias;
pub mod conns;
pub mod pool;
pub mod sealed;
pub mod signal;
pub mod simple;

verus! {

/// How many items each channel between tasks can hold.
pub const BUFFER_SIZE: usize = 256;

} // verus!
