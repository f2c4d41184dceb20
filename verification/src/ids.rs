//! The message-type identifiers of the two relay bands carried in sealed envelopes.
//!
//! Band `0x0800` holds the node-to-relay sealed control frames ([`control`]); band `0x0900` holds
//! the relay-to-relay mesh frames ([`mesh`]); each band is 256 identifiers wide. The sealed control
//! identifiers occupy only the low half of the control band, `0x0800..=0x087F`, leaving the high
//! half `0x0880..=0x08FF` (from [`RTN_RESERVED_BASE`]) free for the retainer frames, so that those
//! never clash with a relay identifier.

pub mod control;
pub mod mesh;

use vstd::prelude::*;

verus! {

/// The band base of the node-to-relay sealed control frames.
pub const BAND_RELAY_CONTROL: u32 = 0x0000_0800;

/// The band base of the relay-to-relay mesh frames.
pub const BAND_RELAY_MESH: u32 = 0x0000_0900;

/// The sub-base inside the control band from which identifiers stay reserved for the retainer
/// frames (`0x0880..=0x08FF`); every sealed control identifier is strictly below it.
pub const RTN_RESERVED_BASE: u32 = 0x0000_0800 + 0x0080;

} // verus!
