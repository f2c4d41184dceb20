//! The relay-to-relay mesh frame set ([`MeshMessage`], band `0x0900`).
//!
//! These frames let relays coordinate among themselves: mutual handshake, relay peer exchange,
//! forwarding a node-to-node payload across the mesh, keepalive, and reservation handoff and
//! switch. Every mesh frame travels recipient-sealed to the peer relay's BLS G1 key, inside a
//! [`crate::RelayMessage::Sealed`] envelope whose message type comes from [`crate::ids::mesh`].

use vstd::prelude::*;
use crate::descriptor::RelayDescriptor;

verus! {

/// The complete relay-to-relay mesh frame set.
#[derive(Debug, Clone, PartialEq, Eq)]
pub enum MeshMessage {
    /// Handshake opener: the dialing relay advertises its own signed descriptor.
    MeshHello {
        /// The sender relay's signed descriptor.
        descriptor: Box<RelayDescriptor>,
    },
    /// Handshake response: the responding relay advertises its descriptor.
    MeshHelloAck {
        /// The responder relay's signed descriptor.
        descriptor: Box<RelayDescriptor>,
    },
    /// Relay peer exchange: known peer-relay descriptors the sender is gossiping.
    MeshPeerExchange {
        /// Known peer-relay descriptors.
        relays: Vec<RelayDescriptor>,
    },
    /// Forward a node-to-node payload between relays on behalf of a reserved node. The payload is
    /// already sealed node to node, and the whole frame is sealed relay to relay.
    MeshForward {
        /// The originating node's `peer_id` (hex).
        origin_peer_id: String,
        /// The destination node's `peer_id` (hex).
        dest_peer_id: String,
        /// The node-to-node sealed payload bytes.
        payload: Vec<u8>,
        /// Monotonic per-origin sequence number for ordering and deduplication.
        seq: u64,
    },
    /// Inter-relay liveness keepalive.
    MeshKeepalive {
        /// Sender unix milliseconds.
        timestamp_ms: u64,
    },
    /// Reservation handoff: ask the peer relay to take over a node's reservation.
    MeshHandoff {
        /// The `peer_id` (hex) of the node whose reservation is handed off.
        peer_id: String,
        /// The network the node is registered under.
        network_id: String,
    },
    /// Reservation switch: a node's reservation now lives on the target relay.
    MeshSwitch {
        /// The `peer_id` (hex) of the node whose reservation switched.
        peer_id: String,
        /// The `relay_did` (hex) of the relay now holding the reservation.
        target_relay_did: String,
        /// Whether the target relay accepted the switch.
        accepted: bool,
    },
    /// Inter-relay error notification.
    MeshError {
        /// Machine-readable error code.
        code: u32,
        /// Human-readable error detail.
        message: String,
    },
}

} // verus!
