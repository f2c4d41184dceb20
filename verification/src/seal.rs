//! Recipient-seal machinery of the v2 relay wire.
//!
//! This module turns encoded control and mesh frames into recipient-sealed
//! [`RelayMessage::Sealed`] envelopes and back, using `dig-message`'s G1-DHKEM seal over a relay's
//! or node's BLS G1 identity key. A frame sealed to relay A cannot be opened by relay B; opening
//! also checks the sender's signature, replay, expiry and the G1 subgroup, all in `dig-message`.
//! This module adds which frames may be sealed, under which message type, and the band check on
//! the opened message type. A sealed frame carries its sender, recipient, message type and
//! context in its header, and opens for its recipient to the payload it was sealed with; every
//! refusal by `dig-message` is reported as [`SealError::Message`], and an opened frame is
//! consumed by the replay guard, so that the same frame is refused when opened again.
//!
//! Frames travel as their JSON encoding: the caller hands the sealing functions the encoded frame
//! and receives the encoded frame back from the opening functions.
//!
//! Sealed control (band `0x0800`): `register`, `register_ack`, `unregister`,
//! `hole_punch_request`, `hole_punch_coordinate`, `hole_punch_result`. Sealed mesh (band
//! `0x0900`): every [`MeshMessage`] frame. Every other message stays plaintext on the wire.

use vstd::prelude::*;
use dig_message::MessageError;
use crate::descriptor::{transcript, verify_outcome, RelayDescriptor};
use crate::envelope::{
    above_seen, admitted_open, consumed, decode_envelope, encodes_sealed, expiry_ok, open_envelope, replay_seen,
    seal_and_encode, spec_decode_envelope, spec_unseal, sure_open, unsealed_open, within_freshness, Shape, MAX_DECOMPRESSED_BYTES,
    MAX_ENVELOPE_BYTES,
};
use crate::identity::{
    be_value, spec_verify_signature, spec_derive_identity_sk, spec_g1_subgroup_check, spec_master_secret_key, spec_public_key,
    spec_secret_key_valid, spec_sha256, spec_sign,
};
use crate::ids::{self, control, mesh};
use crate::mesh::MeshMessage;
use crate::message::RelayMessage;

pub use dig_message::ReplayGuard;

verus! {

/// Anything that can go wrong sealing or opening a relay frame. Every open-side error is
/// fail-closed: the frame is discarded, never partially trusted.
#[derive(Debug)]
pub enum SealError {
    /// A `dig-message` seal or open failure (wrong key, bad signature, replay, expiry, bad point).
    Message(MessageError),
    /// The sealed inner payload failed to encode or decode as JSON.
    Codec(String),
    /// The opener was handed a [`RelayMessage`] that is not a `Sealed` variant.
    NotSealed,
    /// The frame must stay plaintext on the wire and cannot be sealed.
    NotSealable,
    /// The opened message type is not in the band the opener expects.
    WrongBand {
        /// The offending message type.
        message_type: u32,
    },
    /// A session that requires sealing was negotiated against a peer that cannot seal.
    DowngradeRefused,
}

impl From<MessageError> for SealError {
    fn from(e: MessageError) -> (r: Self) {
        SealError::Message(e)
    }
}

impl vstd::std_specs::convert::FromSpecImpl<MessageError> for SealError {
    open spec fn obeys_from_spec() -> bool {
        true
    }

    open spec fn from_spec(e: MessageError) -> Self {
        SealError::Message(e)
    }
}


/// A relay's or node's sealing identity: its BLS G1 identity key and the DID it is addressed by.
///
/// The secret key is held as its 32-byte scalar encoding; the identity always carries the public
/// key of that secret key.
pub struct RelayIdentity {
    did: [u8; 32],
    secret_key: [u8; 32],
    g1_pub: [u8; 48],
}

impl RelayIdentity {
    #[verifier::type_invariant]
    spec fn keys_match(self) -> bool {
        &&& spec_secret_key_valid(self.secret_key@)
        &&& self.g1_pub@ == spec_public_key(self.secret_key@)
        &&& be_value(self.secret_key@) != 0 ==> spec_g1_subgroup_check(self.g1_pub@)
    }

    /// The DID this identity is addressed by.
    pub closed spec fn did_bytes(self) -> Seq<u8> {
        self.did@
    }

    /// The encoding of this identity's BLS secret key.
    pub closed spec fn secret(self) -> Seq<u8> {
        self.secret_key@
    }

    /// This identity's 48-byte compressed BLS G1 public key.
    pub closed spec fn public(self) -> Seq<u8> {
        self.g1_pub@
    }

    /// Builds an identity from a wallet `seed` (at least 32 bytes), deriving the identity key as
    /// `dig-identity` does: the master key from the seed, then the identity key from the master.
    pub fn from_master_seed(did: [u8; 32], seed: &[u8]) -> (r: Self)
        requires
            seed@.len() >= 32,
        ensures
            r.did_bytes() == did@,
            r.secret() == spec_derive_identity_sk(spec_master_secret_key(seed@)),
            r.public() == spec_public_key(r.secret()),
    {
        let master = crate::identity::master_secret_key_from_seed(seed);
        let secret_key = crate::identity::derive_identity_sk(&master);
        let g1_pub = crate::identity::public_key_bytes(&secret_key);
        RelayIdentity { did, secret_key, g1_pub }
    }

    /// Builds an identity from an already-derived BLS G1 identity secret key, given by its 32-byte
    /// big-endian encoding (as `SecretKey::to_bytes` gives it).
    pub fn from_secret_key(did: [u8; 32], secret_key: [u8; 32]) -> (r: Self)
        requires
            spec_secret_key_valid(secret_key@),
        ensures
            r.did_bytes() == did@,
            r.secret() == secret_key@,
            r.public() == spec_public_key(secret_key@),
    {
        let g1_pub = crate::identity::public_key_bytes(&secret_key);
        RelayIdentity { did, secret_key, g1_pub }
    }

    /// This identity's DID (seal recipient id).
    pub fn did(&self) -> (r: [u8; 32])
        ensures
            r@ == self.did_bytes(),
    {
        self.did
    }

    /// This identity's 48-byte compressed BLS G1 public key.
    pub fn public_key(&self) -> (r: [u8; 48])
        ensures
            r@ == self.public(),
            r@ == spec_public_key(self.secret()),
            spec_secret_key_valid(self.secret()),
            be_value(self.secret()) != 0 ==> spec_g1_subgroup_check(r@),
    {
        proof {
            use_type_invariant(self);
        }
        self.g1_pub
    }

    /// Builds and signs a [`RelayDescriptor`] advertising this identity: its DID and public key,
    /// the given transport binding and reachability, and the BLS-G2 signature of this identity's
    /// key over the descriptor's signing transcript.
    ///
    /// Whenever the public key is a valid G1 point, the descriptor then verifies against any TLS
    /// SPKI that hashes to `peer_id_spki_hash`, at any time up to `expires_at`.
    pub fn sign_descriptor(
        &self,
        peer_id_spki_hash: [u8; 32],
        network_id: String,
        capabilities: Vec<String>,
        addresses: Vec<String>,
        protocol_version: u32,
        timestamp_ms: u64,
        expires_at: u64,
    ) -> (d: RelayDescriptor)
        ensures
            d.relay_did@ == self.did_bytes(),
            d.bls_g1_pub@ == self.public(),
            d.peer_id_spki_hash == peer_id_spki_hash,
            d.network_id == network_id,
            d.capabilities == capabilities,
            d.addresses == addresses,
            d.protocol_version == protocol_version,
            d.timestamp_ms == timestamp_ms,
            d.expires_at == expires_at,
            d.sig@ == spec_sign(self.secret(), transcript(d)),
            spec_g1_subgroup_check(d.bls_g1_pub@) ==> spec_verify_signature(
                d.bls_g1_pub@,
                transcript(d),
                d.sig@,
            ),
            be_value(self.secret()) != 0 ==> spec_g1_subgroup_check(d.bls_g1_pub@) && spec_verify_signature(
                d.bls_g1_pub@,
                transcript(d),
                d.sig@,
            ),
            forall|spki: Seq<u8>, now_ms: u64|
                spec_g1_subgroup_check(d.bls_g1_pub@) && spec_sha256(spki) == d.peer_id_spki_hash@
                    && now_ms <= d.expires_at ==> #[trigger] verify_outcome(d, spki, now_ms) == Ok::<
                    (),
                    crate::descriptor::DescriptorError,
                >(()),
    {
        proof {
            use_type_invariant(self);
        }
        let mut descriptor = RelayDescriptor {
            relay_did: self.did,
            bls_g1_pub: self.g1_pub,
            peer_id_spki_hash,
            network_id,
            capabilities,
            addresses,
            protocol_version,
            timestamp_ms,
            expires_at,
            sig: [0u8; 96],
        };
        let transcript_bytes = descriptor.signing_bytes();
        descriptor.sig = crate::identity::sign_message(&self.secret_key, transcript_bytes.as_slice());
        assert(transcript(descriptor) == transcript_bytes@);
        descriptor
    }
}

/// Per-message sealing context: the correlation id, the strictly increasing anti-replay counter,
/// and the freshness and expiry window threaded into every sealed envelope.
pub struct SealContext {
    /// Correlates a request with its response (or a fresh random id for one-shots).
    pub correlation_id: [u8; 32],
    /// Strictly increasing per-sender counter (the anti-replay sequence).
    pub counter: u64,
    /// Send time, unix milliseconds.
    pub timestamp_ms: u64,
    /// Expiry, unix milliseconds (0: the receiver's default freshness window applies).
    pub expires_at: u64,
}


/// The message type under which a control message is sealed, or `None` for the messages that
/// stay plaintext on the wire.
pub open spec fn control_type(msg: RelayMessage) -> Option<u32> {
    match msg {
        RelayMessage::Register { .. } => Some(control::REGISTER),
        RelayMessage::RegisterAck { .. } => Some(control::REGISTER_ACK),
        RelayMessage::Unregister { .. } => Some(control::UNREGISTER),
        RelayMessage::HolePunchRequest { .. } => Some(control::HOLE_PUNCH_REQUEST),
        RelayMessage::HolePunchCoordinate { .. } => Some(control::HOLE_PUNCH_COORDINATE),
        RelayMessage::HolePunchResult { .. } => Some(control::HOLE_PUNCH_RESULT),
        _ => None,
    }
}

/// The message type under which a mesh frame is sealed.
pub open spec fn mesh_type(frame: MeshMessage) -> u32 {
    match frame {
        MeshMessage::MeshHello { .. } => mesh::HELLO,
        MeshMessage::MeshHelloAck { .. } => mesh::HELLO_ACK,
        MeshMessage::MeshPeerExchange { .. } => mesh::PEER_EXCHANGE,
        MeshMessage::MeshForward { .. } => mesh::FORWARD,
        MeshMessage::MeshKeepalive { .. } => mesh::KEEPALIVE,
        MeshMessage::MeshHandoff { .. } => mesh::HANDOFF,
        MeshMessage::MeshSwitch { .. } => mesh::SWITCH,
        MeshMessage::MeshError { .. } => mesh::ERROR,
    }
}

/// The band base of a message type: its high 24 bits with the low byte cleared.
pub open spec fn spec_band_base(message_type: u32) -> u32 {
    message_type & 0xFFFF_FF00u32
}

/// The message type id for a sealable control [`RelayMessage`], or `None` if the message must
/// stay plaintext on the wire: the table of what gets sealed.
pub fn control_message_type(msg: &RelayMessage) -> (r: Option<u32>)
    ensures
        r == control_type(*msg),
{
    match msg {
        RelayMessage::Register { .. } => Some(control::REGISTER),
        RelayMessage::RegisterAck { .. } => Some(control::REGISTER_ACK),
        RelayMessage::Unregister { .. } => Some(control::UNREGISTER),
        RelayMessage::HolePunchRequest { .. } => Some(control::HOLE_PUNCH_REQUEST),
        RelayMessage::HolePunchCoordinate { .. } => Some(control::HOLE_PUNCH_COORDINATE),
        RelayMessage::HolePunchResult { .. } => Some(control::HOLE_PUNCH_RESULT),
        _ => None,
    }
}

/// The message type id for a relay-to-relay mesh frame (every mesh frame is sealed).
pub fn mesh_message_type(frame: &MeshMessage) -> (r: u32)
    ensures
        r == mesh_type(*frame),
{
    match frame {
        MeshMessage::MeshHello { .. } => mesh::HELLO,
        MeshMessage::MeshHelloAck { .. } => mesh::HELLO_ACK,
        MeshMessage::MeshPeerExchange { .. } => mesh::PEER_EXCHANGE,
        MeshMessage::MeshForward { .. } => mesh::FORWARD,
        MeshMessage::MeshKeepalive { .. } => mesh::KEEPALIVE,
        MeshMessage::MeshHandoff { .. } => mesh::HANDOFF,
        MeshMessage::MeshSwitch { .. } => mesh::SWITCH,
        MeshMessage::MeshError { .. } => mesh::ERROR,
    }
}

/// The band base of a message type (its high 24 bits with the low byte cleared), e.g.
/// `0x0000_0803` gives `0x0000_0800`.
pub fn band_base(message_type: u32) -> (r: u32)
    ensures
        r == spec_band_base(message_type),
{
    message_type & 0xFFFF_FF00u32
}

/// `bytes` is the encoded one-shot envelope that a seal from the holder of `sender_sk` (DID
/// `sender_did`, key epoch 0) to `recipient_did` builds under `message_type` and the context
/// `ctx`: its header carries these, and its sealed region opens, for the holder of a secret key of
/// `recipient_pub` and with the sender's public key, to `payload` and the context's counter and
/// times.
pub open spec fn sealed_frame(
    bytes: Seq<u8>,
    sender_sk: Seq<u8>,
    sender_did: Seq<u8>,
    recipient_did: [u8; 32],
    recipient_pub: Seq<u8>,
    message_type: u32,
    payload: Seq<u8>,
    ctx: SealContext,
) -> bool {
    encodes_sealed(
        bytes,
        sender_sk,
        sender_did,
        0,
        recipient_did,
        recipient_pub,
        message_type,
        Shape::OneShot,
        ctx.correlation_id,
        None,
        ctx.counter,
        ctx.timestamp_ms,
        ctx.expires_at,
        payload,
    )
}

/// The shared seal path: seal the encoded frame `payload` one-shot, outside any stream and at key
/// epoch 0, to `recipient_pub` under `message_type`, and wrap the encoded envelope in
/// [`RelayMessage::Sealed`].
fn seal_value(
    sender: &RelayIdentity,
    recipient_did: [u8; 32],
    recipient_pub: &[u8; 48],
    message_type: u32,
    payload: &[u8],
    ctx: &SealContext,
) -> (r: Result<RelayMessage, SealError>)
    ensures
        r matches Ok(m) ==> m matches RelayMessage::Sealed { envelope } && sealed_frame(
            envelope@,
            sender.secret(),
            sender.did_bytes(),
            recipient_did,
            recipient_pub@,
            message_type,
            payload@,
            *ctx,
        ),
        r matches Err(e) ==> e is Message,
        !spec_g1_subgroup_check(recipient_pub@) ==> r is Err,
{
    proof {
        use_type_invariant(sender);
    }
    match seal_and_encode(
        &sender.secret_key,
        sender.did,
        0,
        recipient_did,
        recipient_pub,
        message_type,
        Shape::OneShot,
        ctx.correlation_id,
        None,
        ctx.counter,
        ctx.timestamp_ms,
        ctx.expires_at,
        payload,
    ) {
        Ok(bytes) => Ok(RelayMessage::Sealed { envelope: bytes }),
        Err(e) => Err(SealError::Message(e)),
    }
}

/// Seals a control [`RelayMessage`] to a recipient's BLS G1 key, yielding a
/// [`RelayMessage::Sealed`] ready for the wire. `encoded` is the JSON encoding of `msg`, the
/// sealed payload. Node-to-relay frames pass the relay's key and DID; relay-to-node frames pass
/// the node's.
///
/// Fails with [`SealError::NotSealable`] exactly when `msg` is a plaintext-only message, and with
/// [`SealError::Message`] when sealing fails (always so for an invalid recipient key).
pub fn seal_control(
    sender: &RelayIdentity,
    recipient_did: [u8; 32],
    recipient_pub: &[u8; 48],
    msg: &RelayMessage,
    encoded: &[u8],
    ctx: &SealContext,
) -> (r: Result<RelayMessage, SealError>)
    ensures
        control_type(*msg) is None <==> r matches Err(SealError::NotSealable),
        r matches Ok(m) ==> m matches RelayMessage::Sealed { envelope } && sealed_frame(
            envelope@,
            sender.secret(),
            sender.did_bytes(),
            recipient_did,
            recipient_pub@,
            control_type(*msg)->0,
            encoded@,
            *ctx,
        ),
        r matches Err(e) ==> e is NotSealable || e is Message,
        control_type(*msg) is Some && !spec_g1_subgroup_check(recipient_pub@) ==> r matches Err(
            SealError::Message(_),
        ),
{
    let message_type = match control_message_type(msg) {
        Some(t) => t,
        None => return Err(SealError::NotSealable),
    };
    seal_value(sender, recipient_did, recipient_pub, message_type, encoded, ctx)
}

/// Seals a relay-to-relay [`MeshMessage`] to the peer relay's BLS G1 key (band `0x0900`).
/// `encoded` is the JSON encoding of `frame`, the sealed payload.
pub fn seal_mesh(
    sender: &RelayIdentity,
    recipient_did: [u8; 32],
    recipient_pub: &[u8; 48],
    frame: &MeshMessage,
    encoded: &[u8],
    ctx: &SealContext,
) -> (r: Result<RelayMessage, SealError>)
    ensures
        r matches Ok(m) ==> m matches RelayMessage::Sealed { envelope } && sealed_frame(
            envelope@,
            sender.secret(),
            sender.did_bytes(),
            recipient_did,
            recipient_pub@,
            mesh_type(*frame),
            encoded@,
            *ctx,
        ),
        r matches Err(e) ==> e is Message,
        !spec_g1_subgroup_check(recipient_pub@) ==> r is Err,
{
    let message_type = mesh_message_type(frame);
    seal_value(sender, recipient_did, recipient_pub, message_type, encoded, ctx)
}

/// A control frame recovered from a [`RelayMessage::Sealed`].
#[derive(Debug)]
pub struct OpenedControl {
    /// The band `0x0800` message type the frame was sealed under.
    pub message_type: u32,
    /// The recovered control message, in its JSON encoding.
    pub payload: Vec<u8>,
}

/// A mesh frame recovered from a [`RelayMessage::Sealed`].
#[derive(Debug)]
pub struct OpenedMesh {
    /// The band `0x0900` message type the frame was sealed under.
    pub message_type: u32,
    /// The recovered mesh frame, in its JSON encoding.
    pub payload: Vec<u8>,
}

/// What the band check makes of an opened message type and payload.
pub open spec fn band_outcome(message_type: u32, payload: Vec<u8>, expected_band: u32) -> Result<
    (u32, Vec<u8>),
    SealError,
> {
    if spec_band_base(message_type) == expected_band {
        Ok((message_type, payload))
    } else {
        Err(SealError::WrongBand { message_type })
    }
}

/// Accepts an opened frame only when its message type lies in `expected_band`; otherwise reports
/// [`SealError::WrongBand`] with the offending type.
pub fn check_band(message_type: u32, payload: Vec<u8>, expected_band: u32) -> (r: Result<
    (u32, Vec<u8>),
    SealError,
>)
    ensures
        r == band_outcome(message_type, payload, expected_band),
{
    if band_base(message_type) != expected_band {
        return Err(SealError::WrongBand { message_type });
    }
    Ok((message_type, payload))
}

/// What becomes of the outcome of opening an envelope: an opened frame goes through the band
/// check, and a refusal by `dig-message` is reported as [`SealError::Message`].
pub open spec fn opened_outcome(o: Result<(u32, Vec<u8>), MessageError>, expected_band: u32) -> Result<
    (u32, Vec<u8>),
    SealError,
> {
    match o {
        Ok((message_type, payload)) => band_outcome(message_type, payload, expected_band),
        Err(e) => Err(SealError::Message(e)),
    }
}

/// Maps the outcome of opening an envelope to the opener's result: the band check on an opened
/// frame, [`SealError::Message`] for a refused one.
pub fn open_outcome(o: Result<(u32, Vec<u8>), MessageError>, expected_band: u32) -> (r: Result<
    (u32, Vec<u8>),
    SealError,
>)
    ensures
        r == opened_outcome(o, expected_band),
{
    match o {
        Ok((message_type, payload)) => check_band(message_type, payload, expected_band),
        Err(e) => Err(SealError::Message(e)),
    }
}

/// The encoded envelope a relay message carries; empty for a message that is not `Sealed`.
pub open spec fn sealed_bytes(m: RelayMessage) -> Seq<u8> {
    match m {
        RelayMessage::Sealed { envelope } => envelope@,
        _ => Seq::empty(),
    }
}

/// The sender DID and key epoch named by the envelope that `bytes` decode to.
pub open spec fn envelope_sender(bytes: Seq<u8>) -> ([u8; 32], u32) {
    (spec_decode_envelope(bytes)->0.sender, spec_decode_envelope(bytes)->0.sender_epoch)
}

/// Whether an opener's result is what the band check makes of the opened message type and payload
/// `opened`.
pub open spec fn opens_to(r: Result<(u32, Vec<u8>), SealError>, opened: (u32, Seq<u8>), expected_band: u32) -> bool {
    match r {
        Ok((t, p)) => spec_band_base(opened.0) == expected_band && t == opened.0 && p@ == opened.1,
        Err(e) => spec_band_base(opened.0) != expected_band && e == SealError::WrongBand { message_type: opened.0 },
    }
}

/// The message type and payload of an opened control frame, or the error.
pub open spec fn control_parts(r: Result<OpenedControl, SealError>) -> Result<(u32, Vec<u8>), SealError> {
    match r {
        Ok(o) => Ok((o.message_type, o.payload)),
        Err(e) => Err(e),
    }
}

/// The message type and payload of an opened mesh frame, or the error.
pub open spec fn mesh_parts(r: Result<OpenedMesh, SealError>) -> Result<(u32, Vec<u8>), SealError> {
    match r {
        Ok(o) => Ok((o.message_type, o.payload)),
        Err(e) => Err(e),
    }
}

/// The shared open path: unwrap the `Sealed` envelope, decode and open it, then check that the
/// frame's band is `expected_band`.
fn open_value(
    recipient: &RelayIdentity,
    sealed: &RelayMessage,
    expected_band: u32,
    resolve_sender_pub: impl Fn([u8; 32], u32) -> Option<[u8; 48]>,
    guard: &mut ReplayGuard,
    now_ms: u64,
) -> (r: Result<(u32, Vec<u8>), SealError>)
    requires
        forall|d: [u8; 32], e: u32| call_requires(resolve_sender_pub, (d, e)),
    ensures
        !(sealed is Sealed) ==> (r == Err::<(u32, Vec<u8>), SealError>(SealError::NotSealed) && *final(guard)
            == *old(guard)),
        sealed is Sealed ==> r != Err::<(u32, Vec<u8>), SealError>(SealError::NotSealed),
        r matches Err(e) ==> (e is NotSealed || e is Message || e is WrongBand),
        sealed is Sealed && spec_decode_envelope(sealed_bytes(*sealed)) is None ==> (r matches Err(
            SealError::Message(_),
        ) && *final(guard) == *old(guard)),
        sealed is Sealed && sealed_bytes(*sealed).len() > MAX_ENVELOPE_BYTES ==> (r matches Err(
            SealError::Message(_),
        )),
        r matches Ok((t, p)) ==> (spec_band_base(t) == expected_band && sealed is Sealed && exists|k: [u8; 48]|
            #[trigger] call_ensures(resolve_sender_pub, envelope_sender(sealed_bytes(*sealed)), Some(k)) && consumed(
                admitted_open(recipient.secret(), sealed_bytes(*sealed), k@, now_ms, replay_seen(*old(guard))),
                t,
                p@,
                replay_seen(*final(guard)),
            )),
        r matches Err(SealError::WrongBand { message_type }) ==> (spec_band_base(message_type) != expected_band
            && sealed is Sealed && exists|k: [u8; 48]|
            #[trigger] call_ensures(resolve_sender_pub, envelope_sender(sealed_bytes(*sealed)), Some(k)) && consumed(
                admitted_open(recipient.secret(), sealed_bytes(*sealed), k@, now_ms, replay_seen(*old(guard))),
                message_type,
                (admitted_open(recipient.secret(), sealed_bytes(*sealed), k@, now_ms, replay_seen(*old(guard)))->0).1,
                replay_seen(*final(guard)),
            )),
        forall|k: [u8; 48]|
            sealed is Sealed && #[trigger] sure_open(
                recipient.secret(),
                sealed_bytes(*sealed),
                k@,
                now_ms,
                replay_seen(*old(guard)),
            ) is Some && (forall|o: Option<[u8; 48]>|
                call_ensures(resolve_sender_pub, envelope_sender(sealed_bytes(*sealed)), o) ==> o == Some(k))
                ==> opens_to(
                r,
                sure_open(recipient.secret(), sealed_bytes(*sealed), k@, now_ms, replay_seen(*old(guard)))->0,
                expected_band,
            ),
        forall|k: [u8; 48]|
            sealed is Sealed && #[trigger] sure_open(
                recipient.secret(),
                sealed_bytes(*sealed),
                k@,
                now_ms,
                replay_seen(*old(guard)),
            ) is Some && (forall|o: Option<[u8; 48]>|
                call_ensures(resolve_sender_pub, envelope_sender(sealed_bytes(*sealed)), o) ==> o == Some(k))
                ==> (if spec_band_base((sure_open(recipient.secret(), sealed_bytes(*sealed), k@, now_ms, replay_seen(*old(guard)))->0).0) == expected_band {
                (r matches Ok((t, q)) && t == (sure_open(recipient.secret(), sealed_bytes(*sealed), k@, now_ms, replay_seen(*old(guard)))->0).0 && q@ == (sure_open(recipient.secret(), sealed_bytes(*sealed), k@, now_ms, replay_seen(*old(guard)))->0).1)
            } else {
                r == Err::<(u32, Vec<u8>), SealError>(SealError::WrongBand { message_type: (sure_open(recipient.secret(), sealed_bytes(*sealed), k@, now_ms, replay_seen(*old(guard)))->0).0 })
            }),
{
    proof {
        use_type_invariant(recipient);
    }
    let envelope_bytes = match sealed {
        RelayMessage::Sealed { envelope } => envelope,
        _ => return Err(SealError::NotSealed),
    };
    let frame = match decode_envelope(envelope_bytes.as_slice()) {
        Ok(frame) => frame,
        Err(e) => return Err(SealError::Message(e)),
    };
    let ghost seen_before = replay_seen(*guard);
    let opened = open_envelope(&recipient.secret_key, &frame, resolve_sender_pub, guard, now_ms);
    proof {
        assert(sealed_bytes(*sealed) == envelope_bytes@);
        assert(envelope_sender(envelope_bytes@) == (frame.sender, frame.sender_epoch));
        if let Ok((t, p)) = &opened {
            let k = choose|k: [u8; 48]|
                #[trigger] call_ensures(resolve_sender_pub, (frame.sender, frame.sender_epoch), Some(k))
                    && spec_unseal(recipient.secret(), k@, frame@) is Some && consumed(
                    unsealed_open(recipient.secret(), k@, frame@, now_ms, seen_before),
                    *t,
                    p@,
                    replay_seen(*guard),
                );
            assert(admitted_open(recipient.secret(), envelope_bytes@, k@, now_ms, seen_before) == unsealed_open(
                recipient.secret(),
                k@,
                frame@,
                now_ms,
                seen_before,
            ));
            assert(call_ensures(resolve_sender_pub, envelope_sender(sealed_bytes(*sealed)), Some(k)));
        }
    }
    open_outcome(opened, expected_band)
}

/// Opens and verifies a sealed control frame (band `0x0800`) addressed to `recipient`.
///
/// `resolve_sender_pub` maps a sender `(DID, epoch)` to its 48-byte BLS G1 key. Sender
/// signature, anti-replay, expiry and subgroup checks are enforced by `dig-message`, and every
/// refusal there is reported as [`SealError::Message`]; this adds the band check. Fails with
/// [`SealError::NotSealed`] exactly when `sealed` is not a `Sealed` variant, leaving the guard
/// untouched, and with [`SealError::WrongBand`] when the opened type is outside band `0x0800`.
pub fn open_control(
    recipient: &RelayIdentity,
    sealed: &RelayMessage,
    resolve_sender_pub: impl Fn([u8; 32], u32) -> Option<[u8; 48]>,
    guard: &mut ReplayGuard,
    now_ms: u64,
) -> (r: Result<OpenedControl, SealError>)
    requires
        forall|d: [u8; 32], e: u32| call_requires(resolve_sender_pub, (d, e)),
    ensures
        !(sealed is Sealed) ==> (control_parts(r) == Err::<(u32, Vec<u8>), SealError>(SealError::NotSealed) && *final(guard)
            == *old(guard)),
        sealed is Sealed ==> control_parts(r) != Err::<(u32, Vec<u8>), SealError>(SealError::NotSealed),
        control_parts(r) matches Err(e) ==> (e is NotSealed || e is Message || e is WrongBand),
        sealed is Sealed && spec_decode_envelope(sealed_bytes(*sealed)) is None ==> (control_parts(r) matches Err(
            SealError::Message(_),
        ) && *final(guard) == *old(guard)),
        sealed is Sealed && sealed_bytes(*sealed).len() > MAX_ENVELOPE_BYTES ==> (control_parts(r) matches Err(
            SealError::Message(_),
        )),
        control_parts(r) matches Ok((t, p)) ==> (spec_band_base(t) == ids::BAND_RELAY_CONTROL && sealed is Sealed && exists|k: [u8; 48]|
            #[trigger] call_ensures(resolve_sender_pub, envelope_sender(sealed_bytes(*sealed)), Some(k)) && consumed(
                admitted_open(recipient.secret(), sealed_bytes(*sealed), k@, now_ms, replay_seen(*old(guard))),
                t,
                p@,
                replay_seen(*final(guard)),
            )),
        control_parts(r) matches Err(SealError::WrongBand { message_type }) ==> (spec_band_base(message_type) != ids::BAND_RELAY_CONTROL
            && sealed is Sealed && exists|k: [u8; 48]|
            #[trigger] call_ensures(resolve_sender_pub, envelope_sender(sealed_bytes(*sealed)), Some(k)) && consumed(
                admitted_open(recipient.secret(), sealed_bytes(*sealed), k@, now_ms, replay_seen(*old(guard))),
                message_type,
                (admitted_open(recipient.secret(), sealed_bytes(*sealed), k@, now_ms, replay_seen(*old(guard)))->0).1,
                replay_seen(*final(guard)),
            )),
        forall|k: [u8; 48]|
            sealed is Sealed && #[trigger] sure_open(
                recipient.secret(),
                sealed_bytes(*sealed),
                k@,
                now_ms,
                replay_seen(*old(guard)),
            ) is Some && (forall|o: Option<[u8; 48]>|
                call_ensures(resolve_sender_pub, envelope_sender(sealed_bytes(*sealed)), o) ==> o == Some(k))
                ==> opens_to(
                control_parts(r),
                sure_open(recipient.secret(), sealed_bytes(*sealed), k@, now_ms, replay_seen(*old(guard)))->0,
                ids::BAND_RELAY_CONTROL,
            ),
        forall|k: [u8; 48]|
            sealed is Sealed && #[trigger] sure_open(
                recipient.secret(),
                sealed_bytes(*sealed),
                k@,
                now_ms,
                replay_seen(*old(guard)),
            ) is Some && (forall|o: Option<[u8; 48]>|
                call_ensures(resolve_sender_pub, envelope_sender(sealed_bytes(*sealed)), o) ==> o == Some(k))
                ==> (if spec_band_base((sure_open(recipient.secret(), sealed_bytes(*sealed), k@, now_ms, replay_seen(*old(guard)))->0).0) == ids::BAND_RELAY_CONTROL {
                (r matches Ok(o) && o.message_type == (sure_open(recipient.secret(), sealed_bytes(*sealed), k@, now_ms, replay_seen(*old(guard)))->0).0 && o.payload@ == (sure_open(recipient.secret(), sealed_bytes(*sealed), k@, now_ms, replay_seen(*old(guard)))->0).1)
            } else {
                r == Err::<OpenedControl, SealError>(SealError::WrongBand { message_type: (sure_open(recipient.secret(), sealed_bytes(*sealed), k@, now_ms, replay_seen(*old(guard)))->0).0 })
            }),
{
    match open_value(recipient, sealed, ids::BAND_RELAY_CONTROL, resolve_sender_pub, guard, now_ms) {
        Ok((message_type, payload)) => Ok(OpenedControl { message_type, payload }),
        Err(e) => Err(e),
    }
}

/// Opens and verifies a sealed mesh frame (band `0x0900`) addressed to `recipient`; see
/// [`open_control`] for the checks performed.
pub fn open_mesh(
    recipient: &RelayIdentity,
    sealed: &RelayMessage,
    resolve_sender_pub: impl Fn([u8; 32], u32) -> Option<[u8; 48]>,
    guard: &mut ReplayGuard,
    now_ms: u64,
) -> (r: Result<OpenedMesh, SealError>)
    requires
        forall|d: [u8; 32], e: u32| call_requires(resolve_sender_pub, (d, e)),
    ensures
        !(sealed is Sealed) ==> (mesh_parts(r) == Err::<(u32, Vec<u8>), SealError>(SealError::NotSealed) && *final(guard)
            == *old(guard)),
        sealed is Sealed ==> mesh_parts(r) != Err::<(u32, Vec<u8>), SealError>(SealError::NotSealed),
        mesh_parts(r) matches Err(e) ==> (e is NotSealed || e is Message || e is WrongBand),
        sealed is Sealed && spec_decode_envelope(sealed_bytes(*sealed)) is None ==> (mesh_parts(r) matches Err(
            SealError::Message(_),
        ) && *final(guard) == *old(guard)),
        sealed is Sealed && sealed_bytes(*sealed).len() > MAX_ENVELOPE_BYTES ==> (mesh_parts(r) matches Err(
            SealError::Message(_),
        )),
        mesh_parts(r) matches Ok((t, p)) ==> (spec_band_base(t) == ids::BAND_RELAY_MESH && sealed is Sealed && exists|k: [u8; 48]|
            #[trigger] call_ensures(resolve_sender_pub, envelope_sender(sealed_bytes(*sealed)), Some(k)) && consumed(
                admitted_open(recipient.secret(), sealed_bytes(*sealed), k@, now_ms, replay_seen(*old(guard))),
                t,
                p@,
                replay_seen(*final(guard)),
            )),
        mesh_parts(r) matches Err(SealError::WrongBand { message_type }) ==> (spec_band_base(message_type) != ids::BAND_RELAY_MESH
            && sealed is Sealed && exists|k: [u8; 48]|
            #[trigger] call_ensures(resolve_sender_pub, envelope_sender(sealed_bytes(*sealed)), Some(k)) && consumed(
                admitted_open(recipient.secret(), sealed_bytes(*sealed), k@, now_ms, replay_seen(*old(guard))),
                message_type,
                (admitted_open(recipient.secret(), sealed_bytes(*sealed), k@, now_ms, replay_seen(*old(guard)))->0).1,
                replay_seen(*final(guard)),
            )),
        forall|k: [u8; 48]|
            sealed is Sealed && #[trigger] sure_open(
                recipient.secret(),
                sealed_bytes(*sealed),
                k@,
                now_ms,
                replay_seen(*old(guard)),
            ) is Some && (forall|o: Option<[u8; 48]>|
                call_ensures(resolve_sender_pub, envelope_sender(sealed_bytes(*sealed)), o) ==> o == Some(k))
                ==> opens_to(
                mesh_parts(r),
                sure_open(recipient.secret(), sealed_bytes(*sealed), k@, now_ms, replay_seen(*old(guard)))->0,
                ids::BAND_RELAY_MESH,
            ),
        forall|k: [u8; 48]|
            sealed is Sealed && #[trigger] sure_open(
                recipient.secret(),
                sealed_bytes(*sealed),
                k@,
                now_ms,
                replay_seen(*old(guard)),
            ) is Some && (forall|o: Option<[u8; 48]>|
                call_ensures(resolve_sender_pub, envelope_sender(sealed_bytes(*sealed)), o) ==> o == Some(k))
                ==> (if spec_band_base((sure_open(recipient.secret(), sealed_bytes(*sealed), k@, now_ms, replay_seen(*old(guard)))->0).0) == ids::BAND_RELAY_MESH {
                (r matches Ok(o) && o.message_type == (sure_open(recipient.secret(), sealed_bytes(*sealed), k@, now_ms, replay_seen(*old(guard)))->0).0 && o.payload@ == (sure_open(recipient.secret(), sealed_bytes(*sealed), k@, now_ms, replay_seen(*old(guard)))->0).1)
            } else {
                r == Err::<OpenedMesh, SealError>(SealError::WrongBand { message_type: (sure_open(recipient.secret(), sealed_bytes(*sealed), k@, now_ms, replay_seen(*old(guard)))->0).0 })
            }),
{
    match open_value(recipient, sealed, ids::BAND_RELAY_MESH, resolve_sender_pub, guard, now_ms) {
        Ok((message_type, payload)) => Ok(OpenedMesh { message_type, payload }),
        Err(e) => Err(e),
    }
}

/// A node's or relay's local policy on whether a session must be sealed.
#[derive(Debug, Clone, Copy, PartialEq, Eq, Structural)]
pub enum SealMode {
    /// Refuse any session that cannot recipient-seal control frames (fail-closed).
    Required,
    /// Prefer sealing; fall back to v1 plaintext control against a v1 peer.
    Optional,
}

/// The negotiated outcome of a v2 handshake.
#[derive(Debug, Clone, Copy, PartialEq, Eq, Structural)]
pub struct Negotiated {
    /// Whether control frames will be recipient-sealed on this session.
    pub sealed: bool,
}

/// What [`negotiate_session`] decides: a session seals exactly when the peer speaks at least v2
/// and advertises seal support; a `Required` local policy refuses any session that would not.
pub open spec fn negotiation(local: SealMode, peer_protocol_version: u32, peer_supports_seal: bool) -> Result<
    Negotiated,
    SealError,
> {
    let sealed = peer_protocol_version >= crate::PROTOCOL_VERSION_V2 && peer_supports_seal;
    if local == SealMode::Required && !sealed {
        Err(SealError::DowngradeRefused)
    } else {
        Ok(Negotiated { sealed })
    }
}

/// Negotiates the session's seal policy against a peer's advertised capability. A session seals
/// exactly when the peer speaks at least v2 and advertises seal support; under
/// [`SealMode::Required`] a peer that cannot seal is refused with [`SealError::DowngradeRefused`].
pub fn negotiate_session(local: SealMode, peer_protocol_version: u32, peer_supports_seal: bool) -> (r:
    Result<Negotiated, SealError>)
    ensures
        r == negotiation(local, peer_protocol_version, peer_supports_seal),
{
    let sealed = peer_protocol_version >= crate::PROTOCOL_VERSION_V2 && peer_supports_seal;
    if local == SealMode::Required && !sealed {
        return Err(SealError::DowngradeRefused);
    }
    Ok(Negotiated { sealed })
}


proof fn lemma_band_base_of_range(t: u32, base: u32)
    requires
        base & 0xFFu32 == 0,
        base <= t < base + 0x100,
        base <= 0xFFFF_FF00u32,
    ensures
        spec_band_base(t) == base,
{
    assert(t & 0xFFFF_FF00u32 == base) by (bit_vector)
        requires
            base & 0xFFu32 == 0,
            base <= t < base + 0x100,
            base <= 0xFFFF_FF00u32,
    ;
}

/// Every identifier reserved for the retainer frames, from [`ids::RTN_RESERVED_BASE`] to the end of
/// the control band, lies in the control band and above every sealed control identifier, so it
/// never clashes with a relay identifier.
pub proof fn lemma_reserved_range_in_control_band(k: u32, msg: RelayMessage)
    requires
        k < 0x80,
    ensures
        spec_band_base((ids::RTN_RESERVED_BASE + k) as u32) == ids::BAND_RELAY_CONTROL,
        control_type(msg) matches Some(t) ==> t < ids::RTN_RESERVED_BASE + k,
{
    assert(ids::BAND_RELAY_CONTROL & 0xFFu32 == 0) by (bit_vector);
    lemma_band_base_of_range((ids::RTN_RESERVED_BASE + k) as u32, ids::BAND_RELAY_CONTROL);
}

/// Every sealable control message is sealed under a type in the control band `0x0800`, strictly
/// below the reserved sub-base [`ids::RTN_RESERVED_BASE`].
pub proof fn lemma_control_types_in_control_band(msg: RelayMessage)
    ensures
        control_type(msg) matches Some(t) ==> spec_band_base(t) == ids::BAND_RELAY_CONTROL && t
            < ids::RTN_RESERVED_BASE,
{
    if let Some(t) = control_type(msg) {
        assert(ids::BAND_RELAY_CONTROL & 0xFFu32 == 0) by (bit_vector);
        lemma_band_base_of_range(t, ids::BAND_RELAY_CONTROL);
    }
}

/// Every mesh frame is sealed under a type in the mesh band `0x0900`.
pub proof fn lemma_mesh_types_in_mesh_band(frame: MeshMessage)
    ensures
        spec_band_base(mesh_type(frame)) == ids::BAND_RELAY_MESH,
{
    assert(ids::BAND_RELAY_MESH & 0xFFu32 == 0) by (bit_vector);
    lemma_band_base_of_range(mesh_type(frame), ids::BAND_RELAY_MESH);
}

/// The band check keeps the two bands apart: no control message shares its type with a mesh
/// frame, a mesh frame's type is refused by the control opener's band check, and a control
/// message's type by the mesh opener's.
pub proof fn lemma_band_check_separates_bands(msg: RelayMessage, frame: MeshMessage, payload: Vec<u8>)
    ensures
        control_type(msg) != Some(mesh_type(frame)),
        band_outcome(mesh_type(frame), payload, ids::BAND_RELAY_CONTROL) == Err::<(u32, Vec<u8>), SealError>(
            SealError::WrongBand { message_type: mesh_type(frame) },
        ),
        control_type(msg) matches Some(t) ==> band_outcome(t, payload, ids::BAND_RELAY_MESH) == Err::<
            (u32, Vec<u8>),
            SealError,
        >(SealError::WrongBand { message_type: t }),
{
    lemma_mesh_types_in_mesh_band(frame);
    lemma_control_types_in_control_band(msg);
}

/// A session negotiated under [`SealMode::Required`] is never plaintext: negotiation either
/// refuses or yields a sealed session. Under [`SealMode::Optional`] negotiation never refuses.
pub proof fn lemma_required_mode_never_downgrades(peer_protocol_version: u32, peer_supports_seal: bool)
    ensures
        negotiation(SealMode::Required, peer_protocol_version, peer_supports_seal) matches Ok(n)
            ==> n.sealed,
        negotiation(SealMode::Optional, peer_protocol_version, peer_supports_seal) is Ok,
{
}

/// A frame sealed to a recipient opens, for the holder of the recipient's secret key and with the
/// sender's public key, to the message type and payload it was sealed under, at any time within its
/// freshness and expiry window, against any guard that holds no counter of the sender's at or above
/// the frame's (a guard from `new_replay_guard`, which holds none, among them). The sender's key
/// passes the subgroup check whenever its secret is non-zero (see `RelayIdentity::public_key`).
pub proof fn lemma_seal_then_open(
    bytes: Seq<u8>,
    sender_sk: Seq<u8>,
    sender_did: Seq<u8>,
    recipient_did: [u8; 32],
    recipient_sk: Seq<u8>,
    message_type: u32,
    payload: Seq<u8>,
    ctx: SealContext,
    now_ms: u64,
    seen: Set<(Seq<u8>, u32, u64)>,
)
    requires
        sealed_frame(bytes, sender_sk, sender_did, recipient_did, spec_public_key(recipient_sk), message_type, payload, ctx),
        spec_secret_key_valid(recipient_sk),
        spec_g1_subgroup_check(spec_public_key(sender_sk)),
        payload.len() <= MAX_DECOMPRESSED_BYTES,
        within_freshness(ctx.timestamp_ms, now_ms),
        expiry_ok(ctx.timestamp_ms, ctx.expires_at, now_ms),
        above_seen(seen, sender_did, 0, ctx.counter),
    ensures
        sure_open(recipient_sk, bytes, spec_public_key(sender_sk), now_ms, seen) == Some((message_type, payload)),
{
    let env = spec_decode_envelope(bytes)->0;
    assert(spec_unseal(recipient_sk, spec_public_key(sender_sk), env) is Some);
}

/// Once an open has consumed a frame's replay triple, every later open of the same bytes with the
/// same sender key is refused by a guard that still holds that triple, at any time.
pub proof fn lemma_replay_refused(
    recipient_sk: Seq<u8>,
    bytes: Seq<u8>,
    sender_pub: Seq<u8>,
    first_now_ms: u64,
    first_seen: Set<(Seq<u8>, u32, u64)>,
    later_now_ms: u64,
    later_seen: Set<(Seq<u8>, u32, u64)>,
)
    requires
        admitted_open(recipient_sk, bytes, sender_pub, first_now_ms, first_seen) is Some,
        later_seen.contains((admitted_open(recipient_sk, bytes, sender_pub, first_now_ms, first_seen)->0).2),
    ensures
        admitted_open(recipient_sk, bytes, sender_pub, later_now_ms, later_seen) is None,
        sure_open(recipient_sk, bytes, sender_pub, later_now_ms, later_seen) is None,
{
}

/// The band check on an opened frame answers a control-typed frame at the mesh opener, and a
/// mesh-typed frame at the control opener, with [`SealError::WrongBand`] carrying its type: once
/// such a frame opens (see [`lemma_seal_then_open`]), the other band's opener refuses it.
pub proof fn lemma_other_band_refuses(
    msg: RelayMessage,
    frame: MeshMessage,
    payload: Seq<u8>,
    r: Result<(u32, Vec<u8>), SealError>,
)
    ensures
        control_type(msg) matches Some(t) ==> (opens_to(r, (t, payload), ids::BAND_RELAY_MESH) <==> r == Err::<
            (u32, Vec<u8>),
            SealError,
        >(SealError::WrongBand { message_type: t })),
        opens_to(r, (mesh_type(frame), payload), ids::BAND_RELAY_CONTROL) <==> r == Err::<(u32, Vec<u8>), SealError>(
            SealError::WrongBand { message_type: mesh_type(frame) },
        ),
{
    lemma_mesh_types_in_mesh_band(frame);
    lemma_control_types_in_control_band(msg);
    assert(ids::BAND_RELAY_CONTROL != ids::BAND_RELAY_MESH);
}


/// After a frame has opened, the opener's band check answers exactly one way: a frame whose type
/// lies in the expected band is returned with that type and its payload, and one whose type lies
/// outside it is refused with [`SealError::WrongBand`] carrying that type; no other answer is
/// possible.
pub proof fn lemma_opened_frame_answer(
    r: Result<(u32, Vec<u8>), SealError>,
    message_type: u32,
    payload: Seq<u8>,
    expected_band: u32,
)
    requires
        opens_to(r, (message_type, payload), expected_band),
    ensures
        message_type & 0xFFFF_FF00u32 == expected_band ==> (r matches Ok((t, p)) && t == message_type && p@
            == payload),
        message_type & 0xFFFF_FF00u32 != expected_band ==> r == Err::<(u32, Vec<u8>), SealError>(
            SealError::WrongBand { message_type },
        ),
{
}

} // verus!
