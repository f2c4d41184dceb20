//! Node-to-relay sealed control message-type identifiers (band `0x0800`, sub-range `0x0800_00xx`).

use vstd::prelude::*;
use super::BAND_RELAY_CONTROL;

verus! {

/// `register` (node to relay, sealed to the relay).
pub const REGISTER: u32 = BAND_RELAY_CONTROL + 0x01;
/// `register_ack` (relay to node, sealed to the node).
pub const REGISTER_ACK: u32 = BAND_RELAY_CONTROL + 0x02;
/// `unregister` (node to relay, sealed to the relay).
pub const UNREGISTER: u32 = BAND_RELAY_CONTROL + 0x03;
/// `hole_punch_request` (node to relay, sealed to the relay).
pub const HOLE_PUNCH_REQUEST: u32 = BAND_RELAY_CONTROL + 0x04;
/// `hole_punch_coordinate` (relay to node, sealed to the node).
pub const HOLE_PUNCH_COORDINATE: u32 = BAND_RELAY_CONTROL + 0x05;
/// `hole_punch_result` (node to relay, sealed to the relay).
pub const HOLE_PUNCH_RESULT: u32 = BAND_RELAY_CONTROL + 0x06;

} // verus!
