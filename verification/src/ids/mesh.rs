//! Relay-to-relay mesh message-type identifiers (band `0x0900`), all sealed to the peer relay.

use vstd::prelude::*;
use super::BAND_RELAY_MESH;

verus! {

/// `mesh_hello`: handshake opener advertising the sender relay's descriptor.
pub const HELLO: u32 = BAND_RELAY_MESH + 0x01;
/// `mesh_hello_ack`: handshake response advertising the responder relay's descriptor.
pub const HELLO_ACK: u32 = BAND_RELAY_MESH + 0x02;
/// `mesh_peer_exchange`: relay peer-exchange frame.
pub const PEER_EXCHANGE: u32 = BAND_RELAY_MESH + 0x03;
/// `mesh_forward`: forward a node-to-node payload between relays.
pub const FORWARD: u32 = BAND_RELAY_MESH + 0x04;
/// `mesh_keepalive`: inter-relay liveness ping.
pub const KEEPALIVE: u32 = BAND_RELAY_MESH + 0x05;
/// `mesh_handoff`: reservation handoff to a peer relay.
pub const HANDOFF: u32 = BAND_RELAY_MESH + 0x06;
/// `mesh_switch`: confirm a reservation switch to the handoff target.
pub const SWITCH: u32 = BAND_RELAY_MESH + 0x07;
/// `mesh_error`: inter-relay error notification.
pub const ERROR: u32 = BAND_RELAY_MESH + 0xFF;

} // verus!
