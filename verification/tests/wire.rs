//! Message-type tables, band checks, session negotiation, and the seal and open error paths.

use dig_relay_protocol::ids::{self, control, mesh};
use dig_relay_protocol::now_unix_secs;
use dig_relay_protocol::seal::{
    band_base, check_band, control_message_type, mesh_message_type, negotiate_session,
    open_control, open_mesh, seal_control, seal_mesh, Negotiated, RelayIdentity, ReplayGuard,
    SealContext, SealError, SealMode,
};
use dig_relay_protocol::{MeshMessage, RelayDescriptor, RelayMessage, RelayPeerInfo};
use dig_relay_protocol::{PROTOCOL_VERSION_V1, PROTOCOL_VERSION_V2};

fn peer() -> RelayPeerInfo {
    RelayPeerInfo {
        peer_id: "a".into(),
        network_id: "n".into(),
        protocol_version: 1,
        connected_at: 1,
        last_seen: 2,
        addresses: vec![],
    }
}

fn descriptor() -> RelayDescriptor {
    RelayDescriptor {
        relay_did: [0; 32],
        bls_g1_pub: [0; 48],
        peer_id_spki_hash: [0; 32],
        network_id: String::new(),
        capabilities: vec![],
        addresses: vec![],
        protocol_version: 2,
        timestamp_ms: 0,
        expires_at: 0,
        sig: [0; 96],
    }
}

fn all_messages() -> Vec<(RelayMessage, Option<u32>)> {
    vec![
        (
            RelayMessage::Register {
                peer_id: "a".into(),
                network_id: "n".into(),
                protocol_version: 2,
                listen_addrs: vec!["[::]:9444".into()],
            },
            Some(control::REGISTER),
        ),
        (
            RelayMessage::RegisterAck {
                success: true,
                message: "ok".into(),
                connected_peers: 3,
            },
            Some(control::REGISTER_ACK),
        ),
        (RelayMessage::Unregister { peer_id: "a".into() }, Some(control::UNREGISTER)),
        (
            RelayMessage::RelayGossipMessage {
                from: "a".into(),
                to: "b".into(),
                payload: vec![1],
                seq: 1,
            },
            None,
        ),
        (
            RelayMessage::Broadcast {
                from: "a".into(),
                payload: vec![],
                exclude: vec![],
            },
            None,
        ),
        (RelayMessage::PeerConnected { peer: peer() }, None),
        (RelayMessage::PeerDisconnected { peer_id: "a".into() }, None),
        (RelayMessage::GetPeers { network_id: None }, None),
        (RelayMessage::Peers { peers: vec![peer()] }, None),
        (RelayMessage::Ping { timestamp: 1 }, None),
        (RelayMessage::Pong { timestamp: 1 }, None),
        (
            RelayMessage::HolePunchRequest {
                peer_id: "a".into(),
                target_peer_id: "b".into(),
                external_addr: "203.0.113.1:9444".into(),
            },
            Some(control::HOLE_PUNCH_REQUEST),
        ),
        (
            RelayMessage::HolePunchCoordinate {
                peer_id: "a".into(),
                external_addr: "203.0.113.1:9444".into(),
            },
            Some(control::HOLE_PUNCH_COORDINATE),
        ),
        (
            RelayMessage::HolePunchResult {
                peer_id: "a".into(),
                success: false,
            },
            Some(control::HOLE_PUNCH_RESULT),
        ),
        (
            RelayMessage::Error {
                code: 1,
                message: "x".into(),
            },
            None,
        ),
        (
            RelayMessage::RelayHello {
                descriptor: Box::new(descriptor()),
            },
            None,
        ),
        (RelayMessage::Sealed { envelope: vec![1, 2] }, None),
    ]
}

fn all_frames() -> Vec<(MeshMessage, u32)> {
    vec![
        (MeshMessage::MeshHello { descriptor: Box::new(descriptor()) }, mesh::HELLO),
        (MeshMessage::MeshHelloAck { descriptor: Box::new(descriptor()) }, mesh::HELLO_ACK),
        (MeshMessage::MeshPeerExchange { relays: vec![descriptor()] }, mesh::PEER_EXCHANGE),
        (
            MeshMessage::MeshForward {
                origin_peer_id: "o".into(),
                dest_peer_id: "d".into(),
                payload: vec![],
                seq: 0,
            },
            mesh::FORWARD,
        ),
        (MeshMessage::MeshKeepalive { timestamp_ms: 0 }, mesh::KEEPALIVE),
        (
            MeshMessage::MeshHandoff {
                peer_id: "a".into(),
                network_id: "n".into(),
            },
            mesh::HANDOFF,
        ),
        (
            MeshMessage::MeshSwitch {
                peer_id: "a".into(),
                target_relay_did: "r".into(),
                accepted: true,
            },
            mesh::SWITCH,
        ),
        (
            MeshMessage::MeshError {
                code: 2,
                message: "m".into(),
            },
            mesh::ERROR,
        ),
    ]
}

#[test]
fn id_constants_have_their_allocated_values() {
    assert_eq!(ids::BAND_RELAY_CONTROL, 0x0800);
    assert_eq!(ids::BAND_RELAY_MESH, 0x0900);
    assert_eq!(ids::RTN_RESERVED_BASE, 0x0880);
    assert_eq!(band_base(ids::RTN_RESERVED_BASE), ids::BAND_RELAY_CONTROL);
    assert_eq!(band_base(ids::RTN_RESERVED_BASE + 0x7F), ids::BAND_RELAY_CONTROL);
    assert_eq!(control::REGISTER, 0x0801);
    assert_eq!(control::HOLE_PUNCH_RESULT, 0x0806);
    assert_eq!(mesh::HELLO, 0x0901);
    assert_eq!(mesh::SWITCH, 0x0907);
    assert_eq!(mesh::ERROR, 0x09FF);
    assert_eq!(PROTOCOL_VERSION_V1, 1);
    assert_eq!(PROTOCOL_VERSION_V2, 2);
}

#[test]
fn control_table_seals_exactly_the_directed_control_frames() {
    for (msg, expected) in all_messages() {
        assert_eq!(control_message_type(&msg), expected, "{msg:?}");
        if let Some(t) = expected {
            assert_eq!(band_base(t), ids::BAND_RELAY_CONTROL);
            assert!(t < ids::RTN_RESERVED_BASE);
        }
    }
}

#[test]
fn mesh_table_covers_every_frame_in_the_mesh_band() {
    for (frame, expected) in all_frames() {
        assert_eq!(mesh_message_type(&frame), expected, "{frame:?}");
        assert_eq!(band_base(expected), ids::BAND_RELAY_MESH);
    }
}

#[test]
fn band_base_clears_the_low_byte() {
    assert_eq!(band_base(0x0000_0803), 0x0000_0800);
    assert_eq!(band_base(0x0800_0003), 0x0800_0000);
    assert_eq!(band_base(0x0000_09FF), 0x0000_0900);
    assert_eq!(band_base(0xFFFF_FFFF), 0xFFFF_FF00);
    assert_eq!(band_base(0xFF), 0);
}

#[test]
fn band_check_accepts_only_the_expected_band() {
    let ok = check_band(control::UNREGISTER, vec![1, 2], ids::BAND_RELAY_CONTROL).unwrap();
    assert_eq!(ok, (control::UNREGISTER, vec![1, 2]));
    match check_band(mesh::FORWARD, vec![], ids::BAND_RELAY_CONTROL) {
        Err(SealError::WrongBand { message_type }) => assert_eq!(message_type, mesh::FORWARD),
        other => panic!("expected WrongBand, got {other:?}"),
    }
    assert!(matches!(
        check_band(control::REGISTER, vec![], ids::BAND_RELAY_MESH),
        Err(SealError::WrongBand { message_type: 0x0801 })
    ));
}

#[test]
fn negotiation_seals_only_v2_capable_peers() {
    for mode in [SealMode::Required, SealMode::Optional] {
        for version in [0u32, 1, 2, 3] {
            for supports in [false, true] {
                let sealed = version >= 2 && supports;
                let got = negotiate_session(mode, version, supports);
                if mode == SealMode::Required && !sealed {
                    assert!(matches!(got, Err(SealError::DowngradeRefused)));
                } else {
                    assert_eq!(got.unwrap(), Negotiated { sealed });
                }
            }
        }
    }
}

#[test]
fn seal_error_wraps_message_errors() {
    let e: SealError = dig_message::MessageError::OpenFailed.into();
    assert!(matches!(e, SealError::Message(dig_message::MessageError::OpenFailed)));
}

fn ctx() -> SealContext {
    SealContext {
        correlation_id: [9; 32],
        counter: 1,
        timestamp_ms: 1_700_000_000_000,
        expires_at: 0,
    }
}

#[test]
fn sealing_to_an_invalid_key_fails() {
    let node = RelayIdentity::from_master_seed([1; 32], &[1; 32]);
    let register = all_messages().remove(0).0;
    let err = seal_control(&node, [2; 32], &[0xff; 48], &register, b"{}", &ctx());
    assert!(matches!(err, Err(SealError::Message(_))), "{err:?}");
    let err = seal_mesh(&node, [2; 32], &[0; 48], &all_frames()[4].0, b"{}", &ctx());
    assert!(matches!(err, Err(SealError::Message(_))), "{err:?}");
}

#[test]
fn sealed_frames_carry_a_nonempty_envelope() {
    let node = RelayIdentity::from_master_seed([1; 32], &[1; 32]);
    let relay = RelayIdentity::from_master_seed([2; 32], &[2; 32]);
    let register = all_messages().remove(0).0;
    match seal_control(&node, relay.did(), &relay.public_key(), &register, b"{}", &ctx()) {
        Ok(RelayMessage::Sealed { envelope }) => assert!(!envelope.is_empty()),
        other => panic!("expected a sealed frame, got {other:?}"),
    }
}

#[test]
fn opening_rejects_plaintext_and_garbage() {
    let relay = RelayIdentity::from_master_seed([2; 32], &[2; 32]);
    let resolve = |_: [u8; 32], _: u32| None;
    let mut guard = ReplayGuard::new();
    let plain = RelayMessage::Ping { timestamp: 1 };
    assert!(matches!(
        open_mesh(&relay, &plain, resolve, &mut guard, 0),
        Err(SealError::NotSealed)
    ));
    let garbage = RelayMessage::Sealed { envelope: vec![1, 2, 3] };
    assert!(matches!(
        open_control(&relay, &garbage, resolve, &mut guard, 0),
        Err(SealError::Message(_))
    ));
    assert!(matches!(
        open_mesh(&relay, &garbage, resolve, &mut guard, 0),
        Err(SealError::Message(_))
    ));
}

#[test]
fn unresolvable_sender_is_refused() {
    let node = RelayIdentity::from_master_seed([1; 32], &[1; 32]);
    let relay = RelayIdentity::from_master_seed([2; 32], &[2; 32]);
    let register = all_messages().remove(0).0;
    let sealed = seal_control(&node, relay.did(), &relay.public_key(), &register, b"{}", &ctx())
        .unwrap();
    let mut guard = ReplayGuard::new();
    let err = open_control(&relay, &sealed, |_: [u8; 32], _: u32| None, &mut guard, 1_700_000_000_000);
    assert!(matches!(err, Err(SealError::Message(_))), "{err:?}");
}

#[test]
fn clock_reads_a_post_epoch_time() {
    // 2020-09-13 in unix seconds; any current clock is past it.
    assert!(now_unix_secs() > 1_600_000_000);
    let info = RelayPeerInfo::new("p".into(), "n".into(), 2);
    assert!(info.connected_at > 1_600_000_000);
    assert!(info.addresses.is_empty());
}
