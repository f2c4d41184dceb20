//! The opener's outcomes: what a refusal by the seal layer is reported as, the band check on an
//! opened frame, the window an opened frame must fall in, and what a fresh guard admits.

use dig_message::MessageError;
use dig_relay_protocol::ids;
use dig_relay_protocol::seal::{
    open_control, open_mesh, open_outcome, seal_control, seal_mesh, RelayIdentity, ReplayGuard,
    SealContext, SealError,
};
use dig_relay_protocol::{MeshMessage, RelayMessage};

const NOW_MS: u64 = 1_700_000_000_000;

fn identity(seed: u8) -> RelayIdentity {
    RelayIdentity::from_master_seed([seed; 32], &[seed; 32])
}

fn resolve_to(party: &RelayIdentity) -> impl Fn([u8; 32], u32) -> Option<[u8; 48]> {
    let (did, key) = (party.did(), party.public_key());
    move |d, _epoch| if d == did { Some(key) } else { None }
}

fn ctx(counter: u64, timestamp_ms: u64, expires_at: u64) -> SealContext {
    SealContext { correlation_id: [0xC0; 32], counter, timestamp_ms, expires_at }
}

fn unregister() -> RelayMessage {
    RelayMessage::Unregister { peer_id: "node-a".into() }
}

const UNREGISTER_JSON: &[u8] = br#"{"type":"unregister","peer_id":"node-a"}"#;

#[test]
fn open_outcome_reports_a_refusal_as_a_message_error() {
    let r = open_outcome(Err(MessageError::Replay), ids::BAND_RELAY_CONTROL);
    assert!(matches!(r, Err(SealError::Message(MessageError::Replay))));
    let r = open_outcome(Err(MessageError::OpenFailed), ids::BAND_RELAY_MESH);
    assert!(matches!(r, Err(SealError::Message(MessageError::OpenFailed))));
}

#[test]
fn open_outcome_applies_the_band_check() {
    let r = open_outcome(Ok((ids::control::UNREGISTER, vec![7])), ids::BAND_RELAY_CONTROL);
    assert_eq!(r.unwrap(), (ids::control::UNREGISTER, vec![7]));
    let r = open_outcome(Ok((ids::mesh::HELLO, vec![7])), ids::BAND_RELAY_CONTROL);
    assert!(matches!(r, Err(SealError::WrongBand { message_type }) if message_type == ids::mesh::HELLO));
}

#[test]
fn sealed_control_opens_to_its_type_and_payload_with_a_fresh_guard() {
    let node = identity(1);
    let relay = identity(2);
    let sealed = seal_control(&node, relay.did(), &relay.public_key(), &unregister(), UNREGISTER_JSON, &ctx(5, NOW_MS, 0))
        .unwrap();
    let mut guard = ReplayGuard::new();
    let opened = open_control(&relay, &sealed, resolve_to(&node), &mut guard, NOW_MS + 1_000).unwrap();
    assert_eq!(opened.message_type, ids::control::UNREGISTER);
    assert_eq!(opened.payload, UNREGISTER_JSON);
}

#[test]
fn control_frame_at_the_mesh_opener_is_a_wrong_band_with_its_type() {
    let node = identity(1);
    let relay = identity(2);
    let sealed = seal_control(&node, relay.did(), &relay.public_key(), &unregister(), UNREGISTER_JSON, &ctx(0, NOW_MS, 0))
        .unwrap();
    let mut guard = ReplayGuard::new();
    let err = open_mesh(&relay, &sealed, resolve_to(&node), &mut guard, NOW_MS);
    assert!(matches!(err, Err(SealError::WrongBand { message_type }) if message_type == ids::control::UNREGISTER));
}

#[test]
fn undecodable_envelope_is_a_message_error() {
    let relay = identity(2);
    let mut guard = ReplayGuard::new();
    let garbage = RelayMessage::Sealed { envelope: vec![1, 2, 3] };
    let err = open_control(&relay, &garbage, resolve_to(&relay), &mut guard, NOW_MS);
    assert!(matches!(err, Err(SealError::Message(_))), "got {err:?}");
}

#[test]
fn expired_frame_is_a_message_error() {
    let node = identity(1);
    let relay = identity(2);
    let sealed = seal_control(&node, relay.did(), &relay.public_key(), &unregister(), UNREGISTER_JSON, &ctx(0, NOW_MS, NOW_MS + 10))
        .unwrap();
    let mut guard = ReplayGuard::new();
    let err = open_control(&relay, &sealed, resolve_to(&node), &mut guard, NOW_MS + 11);
    assert!(matches!(err, Err(SealError::Message(MessageError::Expired))), "got {err:?}");
}

#[test]
fn stale_frame_is_a_message_error() {
    let node = identity(1);
    let relay = identity(2);
    let sealed = seal_control(&node, relay.did(), &relay.public_key(), &unregister(), UNREGISTER_JSON, &ctx(0, NOW_MS, 0))
        .unwrap();
    let mut guard = ReplayGuard::new();
    let err = open_control(&relay, &sealed, resolve_to(&node), &mut guard, NOW_MS + 300_001);
    assert!(matches!(err, Err(SealError::Message(MessageError::Replay))), "got {err:?}");
}

#[test]
fn unresolvable_sender_is_a_message_error() {
    let node = identity(1);
    let relay = identity(2);
    let sealed = seal_control(&node, relay.did(), &relay.public_key(), &unregister(), UNREGISTER_JSON, &ctx(0, NOW_MS, 0))
        .unwrap();
    let mut guard = ReplayGuard::new();
    let err = open_control(&relay, &sealed, resolve_to(&relay), &mut guard, NOW_MS);
    assert!(matches!(err, Err(SealError::Message(MessageError::UnresolvableSender))), "got {err:?}");
}

#[test]
fn later_counter_from_the_same_sender_opens_after_an_earlier_one() {
    let node = identity(1);
    let relay = identity(2);
    let mut guard = ReplayGuard::new();
    for counter in [3u64, 4, 9] {
        let sealed = seal_control(&node, relay.did(), &relay.public_key(), &unregister(), UNREGISTER_JSON, &ctx(counter, NOW_MS, 0))
            .unwrap();
        assert!(open_control(&relay, &sealed, resolve_to(&node), &mut guard, NOW_MS).is_ok());
    }
    let keepalive = MeshMessage::MeshKeepalive { timestamp_ms: NOW_MS };
    let json = br#"{"type":"mesh_keepalive","timestamp_ms":1700000000000}"#;
    let sealed = seal_mesh(&node, relay.did(), &relay.public_key(), &keepalive, json, &ctx(10, NOW_MS, 0)).unwrap();
    let opened = open_mesh(&relay, &sealed, resolve_to(&node), &mut guard, NOW_MS).unwrap();
    assert_eq!(opened.message_type, ids::mesh::KEEPALIVE);
    assert_eq!(opened.payload, json);
}

#[test]
fn new_replay_guard_admits_a_fresh_frame_then_refuses_its_replay() {
    let node = identity(1);
    let relay = identity(2);
    let sealed = seal_control(&node, relay.did(), &relay.public_key(), &unregister(), UNREGISTER_JSON, &ctx(0, NOW_MS, NOW_MS + 1))
        .unwrap();
    let mut guard = dig_relay_protocol::envelope::new_replay_guard();
    let opened = open_control(&relay, &sealed, resolve_to(&node), &mut guard, NOW_MS).unwrap();
    assert_eq!((opened.message_type, opened.payload.as_slice()), (ids::control::UNREGISTER, UNREGISTER_JSON));
    let again = open_control(&relay, &sealed, resolve_to(&node), &mut guard, NOW_MS);
    assert!(matches!(again, Err(SealError::Message(MessageError::Replay))), "got {again:?}");
}
