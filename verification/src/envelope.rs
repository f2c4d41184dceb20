//! The `dig-message` envelope as the relay wire sees it: the sealed envelope held as plain values,
//! the seal, framing and open calls of `dig-message`, and what they are known to do.
//!
//! The cleartext header of an envelope (version, type, flags, correlation id, sender, recipient,
//! sender epoch, stream header) is set from the seal's parameters; the sealed region (ephemeral
//! key and ciphertext) is fresh for every seal. What opening the sealed region yields is a
//! function of the recipient's secret key, the sender's public key and the envelope, and is named
//! by [`spec_unseal`]; what the replay guard remembers is named by [`replay_seen`].

use vstd::prelude::*;
use dig_identity::bls::SecretKey;
use dig_message::{InteractionShape, MessageError, ReplayGuard, StreamHeader};
use crate::identity::{spec_g1_subgroup_check, spec_public_key, spec_secret_key_valid};

verus! {

/// The error taxonomy of `dig-message`, carried opaquely.
#[verifier::external_type_specification]
#[verifier::external_body]
pub struct ExMessageError(dig_message::MessageError);

/// The anti-replay state of `dig-message` (freshness window and per-sender sliding window),
/// carried opaquely.
#[verifier::external_type_specification]
#[verifier::external_body]
pub struct ExReplayGuard(dig_message::ReplayGuard);

/// The on-wire envelope cap of `dig-message` (16 MiB).
pub const MAX_ENVELOPE_BYTES: usize = 16_777_216;

/// The cap on a sealed payload's decompressed size (64 MiB).
pub const MAX_DECOMPRESSED_BYTES: usize = 67_108_864;

/// The replay guard's freshness window either side of the receiver's clock (5 minutes).
pub const FRESHNESS_WINDOW_MS: u64 = 300_000;

/// The longest time-to-live a sender may give a message (30 days).
pub const MAX_MESSAGE_TTL_MS: u64 = 2_592_000_000;

/// The interaction shape of an envelope, carried in the low two bits of its flags.
#[derive(Debug, Clone, Copy, PartialEq, Eq, Structural)]
pub enum Shape {
    /// Fire-and-forget.
    OneShot,
    /// A correlated request.
    Request,
    /// A correlated response.
    Response,
    /// A frame of a stream.
    StreamFrame,
}

/// The flag bits of an interaction shape.
pub open spec fn shape_bits(shape: Shape) -> u8 {
    match shape {
        Shape::OneShot => 0,
        Shape::Request => 1,
        Shape::Response => 2,
        Shape::StreamFrame => 3,
    }
}

/// The flag bit that marks an envelope as sealed.
pub const FLAG_SEALED: u8 = 4;

/// A stream frame's control header.
#[derive(Debug, Clone, Copy, PartialEq, Eq, Structural)]
pub struct StreamInfo {
    /// The frame kind.
    pub frame: u8,
    /// The per-direction sequence number.
    pub seq: u64,
    /// The flow-control window.
    pub window: u32,
}

/// A decoded envelope, held as plain values.
pub struct SealedFrame {
    /// Envelope format version.
    pub version: u8,
    /// Cleartext message type.
    pub message_type: u32,
    /// Interaction shape and sealed bit.
    pub flags: u8,
    /// Correlation id.
    pub correlation_id: [u8; 32],
    /// Sender DID.
    pub sender: [u8; 32],
    /// Recipient DID.
    pub recipient: [u8; 32],
    /// Sender key epoch.
    pub sender_epoch: u32,
    /// The stream header, present for stream frames.
    pub stream: Option<StreamInfo>,
    /// The ephemeral G1 encapsulation.
    pub kem_enc: [u8; 48],
    /// The sealed inner message.
    pub ciphertext: Vec<u8>,
}

/// An envelope as a mathematical value.
pub struct EnvelopeView {
    pub version: u8,
    pub message_type: u32,
    pub flags: u8,
    pub correlation_id: [u8; 32],
    pub sender: [u8; 32],
    pub recipient: [u8; 32],
    pub sender_epoch: u32,
    pub stream: Option<StreamInfo>,
    pub kem_enc: [u8; 48],
    pub ciphertext: Seq<u8>,
}

impl View for SealedFrame {
    type V = EnvelopeView;

    open spec fn view(&self) -> EnvelopeView {
        EnvelopeView {
            version: self.version,
            message_type: self.message_type,
            flags: self.flags,
            correlation_id: self.correlation_id,
            sender: self.sender,
            recipient: self.recipient,
            sender_epoch: self.sender_epoch,
            stream: self.stream,
            kem_enc: self.kem_enc,
            ciphertext: self.ciphertext@,
        }
    }
}

/// The content of a sealed region that opened and verified: the inner message type, anti-replay
/// counter, send time and expiry, and the decompressed payload (`None` when it does not
/// decompress within the 64 MiB cap).
pub struct Unsealed {
    pub message_type: u32,
    pub counter: u64,
    pub timestamp_ms: u64,
    pub expires_at: u64,
    pub payload: Option<Seq<u8>>,
}

/// What `dig_message::decode_envelope` yields for on-wire bytes, or `None` where it refuses them.
pub uninterp spec fn spec_decode_envelope(bytes: Seq<u8>) -> Option<EnvelopeView>;

/// What `dig_message::open_message` recovers from an envelope's sealed region with the recipient's
/// secret key of encoding `recipient_sk` and the sender key `sender_pub`: `Some` exactly when both
/// G1 points pass the subgroup check, the region decrypts and decodes, the sender's signature over
/// the transcript verifies, and the inner message type and correlation id match the header.
pub uninterp spec fn spec_unseal(recipient_sk: Seq<u8>, sender_pub: Seq<u8>, envelope: EnvelopeView) -> Option<Unsealed>;

/// The `(sender DID, sender epoch, counter)` triples that a replay guard currently holds as
/// already accepted.
pub uninterp spec fn replay_seen(guard: ReplayGuard) -> Set<(Seq<u8>, u32, u64)>;

/// Whether a send time lies within the freshness window around the receiver's clock.
pub open spec fn within_freshness(timestamp_ms: u64, now_ms: u64) -> bool {
    now_ms - FRESHNESS_WINDOW_MS <= timestamp_ms && timestamp_ms <= now_ms + FRESHNESS_WINDOW_MS
}

/// Whether a message with this send time and expiry is accepted at `now_ms`: no explicit expiry,
/// or an expiry at most 30 days after the send time that has not passed.
pub open spec fn expiry_ok(timestamp_ms: u64, expires_at: u64, now_ms: u64) -> bool {
    expires_at == 0 || (expires_at <= timestamp_ms + MAX_MESSAGE_TTL_MS && now_ms <= expires_at)
}

/// Whether every counter the guard holds for `(sender, epoch)` lies below `counter`.
pub open spec fn above_seen(seen: Set<(Seq<u8>, u32, u64)>, sender: Seq<u8>, epoch: u32, counter: u64) -> bool {
    forall|c: u64| #[trigger] seen.contains((sender, epoch, c)) ==> c < counter
}

/// The envelope that a seal from `sender` to `recipient` builds: its cleartext header carries the
/// seal's parameters, and its sealed region opens, with any secret key of `recipient_pub` and the
/// sender's public key, to the given counter, times and payload.
pub open spec fn sealed_as(
    envelope: EnvelopeView,
    sender_sk: Seq<u8>,
    sender: Seq<u8>,
    sender_epoch: u32,
    recipient: [u8; 32],
    recipient_pub: Seq<u8>,
    message_type: u32,
    shape: Shape,
    correlation_id: [u8; 32],
    stream: Option<StreamInfo>,
    counter: u64,
    timestamp_ms: u64,
    expires_at: u64,
    payload: Seq<u8>,
) -> bool {
    &&& envelope.version == 1
    &&& envelope.message_type == message_type
    &&& envelope.flags == shape_bits(shape) | FLAG_SEALED
    &&& envelope.correlation_id == correlation_id
    &&& envelope.sender@ == sender
    &&& envelope.recipient == recipient
    &&& envelope.sender_epoch == sender_epoch
    &&& envelope.stream == stream
    &&& forall|recipient_sk: Seq<u8>|
        spec_secret_key_valid(recipient_sk) && spec_public_key(recipient_sk) == recipient_pub
            && spec_g1_subgroup_check(spec_public_key(sender_sk)) && payload.len()
            <= MAX_DECOMPRESSED_BYTES ==> #[trigger] spec_unseal(
            recipient_sk,
            spec_public_key(sender_sk),
            envelope,
        ) == Some(
            Unsealed { message_type, counter, timestamp_ms, expires_at, payload: Some(payload) },
        )
}

/// What an open of the envelope `env`, with the recipient's secret key `recipient_sk` and the
/// sender key `sender_pub`, at `now_ms`, against a guard holding the triples `seen`, is accepted
/// as: the message type, the payload and the replay triple it consumes. `None` where the envelope
/// does not unseal, its payload does not decompress, it is stale or expired, or its counter is
/// already held for its sender.
pub open spec fn unsealed_open(
    recipient_sk: Seq<u8>,
    sender_pub: Seq<u8>,
    env: EnvelopeView,
    now_ms: u64,
    seen: Set<(Seq<u8>, u32, u64)>,
) -> Option<(u32, Seq<u8>, (Seq<u8>, u32, u64))> {
    match spec_unseal(recipient_sk, sender_pub, env) {
        Some(u) => {
            let triple = (env.sender@, env.sender_epoch, u.counter);
            if u.payload is Some && expiry_ok(u.timestamp_ms, u.expires_at, now_ms) && within_freshness(
                u.timestamp_ms,
                now_ms,
            ) && !seen.contains(triple) {
                Some((u.message_type, u.payload->0, triple))
            } else {
                None
            }
        },
        None => None,
    }
}

/// The opens of [`unsealed_open`] that every guard holding the triples `seen` admits: those whose
/// counter lies above every counter held for the sender.
pub open spec fn sure_unsealed(
    recipient_sk: Seq<u8>,
    sender_pub: Seq<u8>,
    env: EnvelopeView,
    now_ms: u64,
    seen: Set<(Seq<u8>, u32, u64)>,
) -> Option<(u32, Seq<u8>)> {
    match unsealed_open(recipient_sk, sender_pub, env, now_ms, seen) {
        Some((t, p, triple)) => if above_seen(seen, triple.0, triple.1, triple.2) {
            Some((t, p))
        } else {
            None
        },
        None => None,
    }
}

/// [`unsealed_open`] on the envelope that `bytes` decode to; `None` where they do not decode.
pub open spec fn admitted_open(
    recipient_sk: Seq<u8>,
    bytes: Seq<u8>,
    sender_pub: Seq<u8>,
    now_ms: u64,
    seen: Set<(Seq<u8>, u32, u64)>,
) -> Option<(u32, Seq<u8>, (Seq<u8>, u32, u64))> {
    match spec_decode_envelope(bytes) {
        Some(env) => unsealed_open(recipient_sk, sender_pub, env, now_ms, seen),
        None => None,
    }
}

/// [`sure_unsealed`] on the envelope that `bytes` decode to; `None` where they do not decode.
pub open spec fn sure_open(
    recipient_sk: Seq<u8>,
    bytes: Seq<u8>,
    sender_pub: Seq<u8>,
    now_ms: u64,
    seen: Set<(Seq<u8>, u32, u64)>,
) -> Option<(u32, Seq<u8>)> {
    match spec_decode_envelope(bytes) {
        Some(env) => sure_unsealed(recipient_sk, sender_pub, env, now_ms, seen),
        None => None,
    }
}

/// Whether an accepted open `accepted` yielded the message type `t` and the payload `p`, and the
/// guard afterwards, holding `seen_after`, holds its replay triple.
pub open spec fn consumed(
    accepted: Option<(u32, Seq<u8>, (Seq<u8>, u32, u64))>,
    t: u32,
    p: Seq<u8>,
    seen_after: Set<(Seq<u8>, u32, u64)>,
) -> bool {
    &&& accepted is Some
    &&& (accepted->0).0 == t
    &&& (accepted->0).1 == p
    &&& seen_after.contains((accepted->0).2)
}

/// `bytes` is an envelope of at most 16 MiB that decodes to one built by the seal described by
/// [`sealed_as`].
pub open spec fn encodes_sealed(
    bytes: Seq<u8>,
    sender_sk: Seq<u8>,
    sender: Seq<u8>,
    sender_epoch: u32,
    recipient: [u8; 32],
    recipient_pub: Seq<u8>,
    message_type: u32,
    shape: Shape,
    correlation_id: [u8; 32],
    stream: Option<StreamInfo>,
    counter: u64,
    timestamp_ms: u64,
    expires_at: u64,
    payload: Seq<u8>,
) -> bool {
    &&& bytes.len() <= MAX_ENVELOPE_BYTES
    &&& spec_decode_envelope(bytes) is Some
    &&& sealed_as(
        spec_decode_envelope(bytes)->0,
        sender_sk,
        sender,
        sender_epoch,
        recipient,
        recipient_pub,
        message_type,
        shape,
        correlation_id,
        stream,
        counter,
        timestamp_ms,
        expires_at,
        payload,
    )
}

/// `ReplayGuard::new` builds a guard with an empty sender table, which holds no replay triple.
pub assume_specification[ dig_message::ReplayGuard::new ]() -> (g: ReplayGuard)
    ensures
        replay_seen(g) == Set::<(Seq<u8>, u32, u64)>::empty(),
;

/// A replay guard that has accepted nothing yet: it holds no replay triple, so it admits the first
/// fresh, unexpired frame of every sender.
pub fn new_replay_guard() -> (g: ReplayGuard)
    ensures
        replay_seen(g) == Set::<(Seq<u8>, u32, u64)>::empty(),
{
    ReplayGuard::new()
}

/// Calls `dig_message::seal_message` with the sender's secret key of encoding `sender_sk`, then
/// frames the envelope with `dig_message::encode_envelope`.
///
/// The cleartext header is set from the parameters, and the sealed region opens, for the holder of
/// the recipient key and with the sender's public key, to the counter, times and payload given.
/// The ephemeral key, and with it the ciphertext, is fresh for every call, so nothing more is
/// claimed of the bytes. Sealing fails whenever the recipient key is not a valid G1 subgroup point.
#[verifier::external_body]
pub(crate) fn seal_and_encode(
    sender_sk: &[u8; 32],
    sender: [u8; 32],
    sender_epoch: u32,
    recipient: [u8; 32],
    recipient_pub: &[u8; 48],
    message_type: u32,
    shape: Shape,
    correlation_id: [u8; 32],
    stream: Option<StreamInfo>,
    counter: u64,
    timestamp_ms: u64,
    expires_at: u64,
    payload: &[u8],
) -> (r: Result<Vec<u8>, MessageError>)
    requires
        spec_secret_key_valid(sender_sk@),
    ensures
        !spec_g1_subgroup_check(recipient_pub@) ==> r is Err,
        r matches Ok(bytes) ==> encodes_sealed(bytes@, sender_sk@, sender@, sender_epoch, recipient,
            recipient_pub@, message_type, shape, correlation_id, stream, counter, timestamp_ms, expires_at,
            payload@),
{
    let sender_sk = SecretKey::from_bytes(sender_sk).expect("a valid key encoding");
    let shape = match shape {
        Shape::OneShot => InteractionShape::OneShot,
        Shape::Request => InteractionShape::Request,
        Shape::Response => InteractionShape::Response,
        Shape::StreamFrame => InteractionShape::StreamFrame,
    };
    let stream = stream.map(|s| StreamHeader { frame: s.frame, seq: s.seq, window: s.window });
    dig_message::encode_envelope(&dig_message::seal_message(&dig_message::SealParams {
        sender_sk: &sender_sk, sender: sender.into(), sender_epoch, recipient: recipient.into(),
        recipient_pub, message_type, shape, correlation_id: correlation_id.into(), stream, counter,
        timestamp_ms, expires_at, payload,
    })?)
}

/// Calls `dig_message::decode_envelope` and holds the envelope as plain values. It refuses input
/// over the 16 MiB cap and a version newer than 1; the decoded envelope is named by
/// `spec_decode_envelope`.
#[verifier::external_body]
pub(crate) fn decode_envelope(bytes: &[u8]) -> (r: Result<SealedFrame, MessageError>)
    ensures
        bytes@.len() > MAX_ENVELOPE_BYTES ==> r is Err,
        r is Ok <==> spec_decode_envelope(bytes@) is Some,
        r matches Ok(frame) ==> spec_decode_envelope(bytes@) == Some(frame@) && frame.version <= 1,
{
    let e = dig_message::decode_envelope(bytes)?;
    Ok(SealedFrame {
        version: e.version, message_type: e.message_type, flags: e.flags,
        correlation_id: e.correlation_id.into(), sender: e.sender.into(), recipient: e.recipient.into(),
        sender_epoch: e.sender_epoch,
        stream: e.stream.map(|s| StreamInfo { frame: s.frame, seq: s.seq, window: s.window }),
        kem_enc: e.sealed.kem_enc.into(), ciphertext: e.sealed.ciphertext,
    })
}

/// Calls `dig_message::open_message` on the envelope `frame` with the recipient's secret key of
/// encoding `recipient_sk`, the caller's sender-key resolver and replay guard, and returns the
/// opened message type and payload.
///
/// An open succeeds only for a sender key the resolver returned, when the sealed region unseals
/// with it, the payload decompresses, the message is fresh and unexpired at `now_ms`, and the
/// guard had not accepted its counter; the guard then holds it. It surely succeeds when the
/// resolver can only return that key and the counter lies above every counter the guard holds
/// for the sender. Which other counters the guard accepts depends on its sliding window and its
/// eviction order, and is not stated.
#[verifier::external_body]
pub(crate) fn open_envelope(
    recipient_sk: &[u8; 32],
    frame: &SealedFrame,
    resolve_sender_pub: impl Fn([u8; 32], u32) -> Option<[u8; 48]>,
    guard: &mut ReplayGuard,
    now_ms: u64,
) -> (r: Result<(u32, Vec<u8>), MessageError>)
    requires
        spec_secret_key_valid(recipient_sk@),
        forall|d: [u8; 32], e: u32| call_requires(resolve_sender_pub, (d, e)),
    ensures
        r matches Ok((t, p)) ==> exists|k: [u8; 48]|
            #[trigger] call_ensures(resolve_sender_pub, (frame.sender, frame.sender_epoch), Some(k))
                && spec_unseal(recipient_sk@, k@, frame@) is Some && consumed(
                unsealed_open(recipient_sk@, k@, frame@, now_ms, replay_seen(*old(guard))),
                t,
                p@,
                replay_seen(*final(guard)),
            ),
        forall|k: [u8; 48]|
            #[trigger] sure_unsealed(recipient_sk@, k@, frame@, now_ms, replay_seen(*old(guard))) is Some && (forall|
                o: Option<[u8; 48]>,
            | call_ensures(resolve_sender_pub, (frame.sender, frame.sender_epoch), o) ==> o == Some(k)) ==> (r matches Ok(
                (t, q),
            ) && t == (sure_unsealed(recipient_sk@, k@, frame@, now_ms, replay_seen(*old(guard)))->0).0 && q@
                == (sure_unsealed(recipient_sk@, k@, frame@, now_ms, replay_seen(*old(guard)))->0).1),
{
    let sk = SecretKey::from_bytes(recipient_sk).expect("a valid key encoding");
    let envelope = dig_message::DigMessageEnvelope {
        version: frame.version, message_type: frame.message_type, flags: frame.flags,
        correlation_id: frame.correlation_id.into(), sender: frame.sender.into(),
        recipient: frame.recipient.into(), sender_epoch: frame.sender_epoch,
        stream: frame.stream.map(|s| StreamHeader { frame: s.frame, seq: s.seq, window: s.window }),
        sealed: dig_message::SealedPayload { kem_enc: frame.kem_enc.into(), ciphertext: frame.ciphertext.clone() },
    };
    let opened = dig_message::open_message(&sk, &envelope, |s, e| resolve_sender_pub(s.into(), e), guard, now_ms)?;
    Ok((opened.message_type, opened.payload))
}

} // verus!
