//! The peer record constructor of the node-to-relay wire.

use dig_relay_protocol::RelayPeerInfo;

#[test]
fn relay_peer_info_new_stamps_equal_timestamps() {
    let info = RelayPeerInfo::new("a".into(), "DIG_MAINNET".into(), 1);
    assert_eq!(info.peer_id, "a");
    assert_eq!(info.network_id, "DIG_MAINNET");
    assert_eq!(info.protocol_version, 1);
    // new() stamps connected_at == last_seen (both = now).
    assert_eq!(info.connected_at, info.last_seen);
}


#[test]
fn relay_peer_info_new_at_stamps_the_given_time() {
    let info = RelayPeerInfo::new_at("a".into(), "DIG_MAINNET".into(), 2, 1_700_000_000);
    assert_eq!(info.peer_id, "a");
    assert_eq!(info.network_id, "DIG_MAINNET");
    assert_eq!(info.protocol_version, 2);
    assert_eq!(info.connected_at, 1_700_000_000);
    assert_eq!(info.last_seen, 1_700_000_000);
    assert!(info.addresses.is_empty());
}
