//! The node-to-relay message set ([`RelayMessage`]) and the peer record it carries
//! ([`RelayPeerInfo`]).
//!
//! Socket addresses are held in their standard text form (`IP:PORT`, or `[IP]:PORT` for IPv6),
//! which is also their form on the JSON wire.

use vstd::prelude::*;
use std::time::{Duration, SystemTime, SystemTimeError};
use crate::descriptor::RelayDescriptor;

verus! {

/// The complete node-to-relay protocol message set.
///
/// The variants group by requirement: registration (`Register`, `RegisterAck`, `Unregister`),
/// targeted forwarding (`RelayGossipMessage`), broadcast fan-out (`Broadcast`), peer
/// notifications (`PeerConnected`, `PeerDisconnected`), peer discovery (`GetPeers`, `Peers`),
/// keepalive (`Ping`, `Pong`), NAT traversal (`HolePunchRequest`, `HolePunchCoordinate`,
/// `HolePunchResult`), errors (`Error`), and the v2 additions: the relay's signed identity
/// (`RelayHello`) and the recipient-sealed transport envelope (`Sealed`).
#[derive(Debug, Clone, PartialEq, Eq)]
pub enum RelayMessage {
    /// Node to relay: register after connecting, so the relay holds a reservation for this node.
    Register {
        /// The node's stable identity, hex-encoded (`SHA-256(TLS SPKI DER)`).
        peer_id: String,
        /// The network the node registers under.
        network_id: String,
        /// The relay protocol version the node advertises.
        protocol_version: u32,
        /// The node's advertised listen candidate addresses, IPv6 first (text form); empty is
        /// omitted from the wire.
        listen_addrs: Vec<String>,
    },
    /// Relay to node: acknowledgement of a `Register`.
    RegisterAck {
        /// Whether the registration was accepted.
        success: bool,
        /// Human-readable status or rejection reason.
        message: String,
        /// How many peers the relay currently has connected.
        connected_peers: usize,
    },
    /// Node to relay: graceful disconnect, releasing the reservation.
    Unregister {
        /// The node's `peer_id` (hex).
        peer_id: String,
    },
    /// Node to relay to node: relayed last-resort transport of `payload` to peer `to`. The payload
    /// is end-to-end sealed to the recipient; the relay forwards ciphertext.
    RelayGossipMessage {
        /// Sender `peer_id` (hex).
        from: String,
        /// Recipient `peer_id` (hex).
        to: String,
        /// Opaque forwarded bytes.
        payload: Vec<u8>,
        /// Monotonic per-sender sequence number.
        seq: u64,
    },
    /// Node to relay to all: fan-out `payload` to every registered peer except those excluded.
    Broadcast {
        /// Sender `peer_id` (hex).
        from: String,
        /// Opaque broadcast bytes.
        payload: Vec<u8>,
        /// `peer_id`s (hex) to omit from the fan-out.
        exclude: Vec<String>,
    },
    /// Relay to node: a new peer connected to the relay.
    PeerConnected {
        /// The peer that just connected.
        peer: RelayPeerInfo,
    },
    /// Relay to node: a peer disconnected from the relay.
    PeerDisconnected {
        /// The `peer_id` (hex) that left.
        peer_id: String,
    },
    /// Node to relay: request the connected-peer list, optionally filtered to one network.
    GetPeers {
        /// Restrict the response to this network, or `None` for all networks.
        network_id: Option<String>,
    },
    /// Relay to node: the peer-list response to a `GetPeers`.
    Peers {
        /// The peers currently registered with the relay.
        peers: Vec<RelayPeerInfo>,
    },
    /// Bidirectional keepalive request.
    Ping {
        /// Sender unix timestamp (seconds), echoed back in the matching `Pong`.
        timestamp: u64,
    },
    /// Keepalive response, echoing the `Ping` timestamp.
    Pong {
        /// The timestamp echoed from the originating ping.
        timestamp: u64,
    },
    /// Node to relay: ask the relay to coordinate a hole punch toward `target_peer_id`.
    HolePunchRequest {
        /// The requesting node's `peer_id` (hex).
        peer_id: String,
        /// The peer to punch toward, `peer_id` (hex).
        target_peer_id: String,
        /// The requester's externally observed socket address (text form).
        external_addr: String,
    },
    /// Relay to node: the counterpart's external address to dial simultaneously.
    HolePunchCoordinate {
        /// The counterpart peer's `peer_id` (hex).
        peer_id: String,
        /// The counterpart's external socket address (text form).
        external_addr: String,
    },
    /// Node to relay: the outcome of a coordinated hole punch.
    HolePunchResult {
        /// The counterpart peer's `peer_id` (hex).
        peer_id: String,
        /// Whether a direct connection was established.
        success: bool,
    },
    /// Relay to node: an error notification.
    Error {
        /// Machine-readable error code.
        code: u32,
        /// Human-readable error detail.
        message: String,
    },
    /// Relay to node: the relay's signed identity record, sent first on a v2 session so the node
    /// can authenticate the relay's BLS G1 key before sealing its `register` to it.
    RelayHello {
        /// The relay's signed descriptor.
        descriptor: Box<RelayDescriptor>,
    },
    /// Either direction: a recipient-sealed frame, the encoded sealed envelope whose message type
    /// is a band `0x0800` (control) or band `0x0900` (mesh) identifier.
    Sealed {
        /// The encoded sealed envelope bytes.
        envelope: Vec<u8>,
    },
}

/// A peer as tracked by the relay server, carried in `Peers` and `PeerConnected`.
#[derive(Debug, Clone, PartialEq, Eq)]
pub struct RelayPeerInfo {
    /// The peer's stable identity, hex-encoded (`SHA-256(TLS SPKI DER)`).
    pub peer_id: String,
    /// The network the peer registered under.
    pub network_id: String,
    /// The relay protocol version the peer advertised.
    pub protocol_version: u32,
    /// Unix time (seconds) the peer first connected to the relay.
    pub connected_at: u64,
    /// Unix time (seconds) the relay last saw activity from the peer.
    pub last_seen: u64,
    /// The relay-resolved dialable candidate addresses for this peer, IPv6 first (text form);
    /// empty is omitted from the wire.
    pub addresses: Vec<String>,
}

impl RelayPeerInfo {
    /// Builds a `RelayPeerInfo` stamped with the unix time `now` (seconds) for both
    /// `connected_at` and `last_seen`, and with no resolved dialable addresses.
    pub fn new_at(peer_id: String, network_id: String, protocol_version: u32, now: u64) -> (r: Self)
        ensures
            r.peer_id == peer_id,
            r.network_id == network_id,
            r.protocol_version == protocol_version,
            r.connected_at == now,
            r.last_seen == now,
            r.addresses@.len() == 0,
    {
        RelayPeerInfo {
            peer_id,
            network_id,
            protocol_version,
            connected_at: now,
            last_seen: now,
            addresses: Vec::new(),
        }
    }

    /// Builds a `RelayPeerInfo` stamped with the current unix time (seconds) for both
    /// `connected_at` and `last_seen`, and with no resolved dialable addresses.
    pub fn new(peer_id: String, network_id: String, protocol_version: u32) -> (r: Self)
        ensures
            r.peer_id == peer_id,
            r.network_id == network_id,
            r.protocol_version == protocol_version,
            r.connected_at == r.last_seen,
            r.addresses@.len() == 0,
    {
        Self::new_at(peer_id, network_id, protocol_version, now_unix_secs())
    }
}

/// The wall-clock time type of std, carried opaquely.
#[verifier::external_type_specification]
#[verifier::external_body]
pub struct ExSystemTime(std::time::SystemTime);

/// The error std returns for a time before the reference point, carried opaquely.
#[verifier::external_type_specification]
#[verifier::external_body]
pub struct ExSystemTimeError(std::time::SystemTimeError);

/// Calls `SystemTime::now`: the current wall-clock time. Nothing is claimed of it.
#[verifier::external_body]
fn system_time_now() -> SystemTime {
    SystemTime::now()
}

/// Calls `SystemTime::duration_since` with `UNIX_EPOCH`: the time elapsed since the epoch, or an
/// error for a time before it. Nothing is claimed of the value.
#[verifier::external_body]
fn duration_since_unix_epoch(t: &SystemTime) -> Result<Duration, SystemTimeError> {
    t.duration_since(std::time::UNIX_EPOCH)
}

/// Calls `Duration::as_secs`: the whole seconds of a duration.
#[verifier::external_body]
fn duration_as_secs(d: &Duration) -> u64 {
    d.as_secs()
}

/// The unix time in seconds for a clock reading: the whole seconds elapsed since the epoch, or `0`
/// for a reading before the epoch.
pub fn secs_or_zero(elapsed: Result<u64, ()>) -> (r: u64)
    ensures
        r == (match elapsed {
            Ok(secs) => secs,
            Err(_) => 0,
        }),
{
    match elapsed {
        Ok(secs) => secs,
        Err(_) => 0,
    }
}

/// The current unix time in seconds, saturating to `0` for a clock set before the epoch.
pub fn now_unix_secs() -> u64 {
    let now = system_time_now();
    let elapsed = match duration_since_unix_epoch(&now) {
        Ok(duration) => Ok(duration_as_secs(&duration)),
        Err(_) => Err(()),
    };
    secs_or_zero(elapsed)
}

} // verus!
