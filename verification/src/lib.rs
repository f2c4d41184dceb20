//! The node-to-relay wire protocol of the DIG Network relay, with the recipient-sealed v2 control
//! frames and the relay-to-relay mesh frame set.

pub mod bytes;
pub mod descriptor;
pub mod envelope;
pub mod identity;
pub mod ids;
mod mesh;
mod message;

pub mod seal;

pub use descriptor::RelayDescriptor;
pub use mesh::MeshMessage;
pub use message::{now_unix_secs, secs_or_zero, RelayMessage, RelayPeerInfo};

use vstd::prelude::*;

verus! {

/// The v1 relay protocol version (plaintext control frames, no recipient sealing).
pub const PROTOCOL_VERSION_V1: u32 = 1;

/// The v2 relay protocol version (relay BLS identity and recipient-sealed control and mesh frames).
pub const PROTOCOL_VERSION_V2: u32 = 2;

} // verus!
