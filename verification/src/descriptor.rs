//! The [`RelayDescriptor`]: a relay's self-describing, BLS-G2-signed identity record.
//!
//! A relay advertises its descriptor first (plaintext but signed) so that a connecting node can
//! authenticate the relay's BLS G1 identity key before sealing its own `register` to it. The
//! descriptor binds the relay's DID, its G1 key and the hash of its TLS SPKI under one signature
//! over [`RelayDescriptor::signing_bytes`].

use vstd::prelude::*;
use vstd::utf8::encode_utf8;
use crate::bytes::{be32, be64, bytes_equal, extend_bytes, u32_be_bytes, u64_be_bytes};
use crate::identity::{spec_g1_subgroup_check, spec_sha256, spec_verify_signature};

verus! {

/// The domain-separation prefix of the descriptor's signing transcript (the ASCII bytes of
/// `DIGNET-RELAY-DESCRIPTOR:v2`), so that a descriptor signature is never confused with any other
/// signature made by the relay's key.
pub const DESCRIPTOR_SIG_DOMAIN: [u8; 26] = [
    68, 73, 71, 78, 69, 84, 45, 82, 69, 76, 65, 89, 45, 68, 69, 83, 67, 82, 73, 80, 84, 79, 82, 58,
    118, 50,
];

/// A relay's signed, self-describing identity and reachability record.
///
/// `addresses` holds each publicly dialable socket address in its standard text form
/// (`IP:PORT`, or `[IP]:PORT` for IPv6), which is also its form on the wire.
#[derive(Debug, Clone, PartialEq, Eq)]
pub struct RelayDescriptor {
    /// The relay's on-chain DID identifier: the routing and seal-recipient identity.
    pub relay_did: [u8; 32],
    /// The relay's compressed BLS12-381 G1 identity public key: the descriptor signing key and the
    /// key nodes seal `register` to.
    pub bls_g1_pub: [u8; 48],
    /// The relay's transport identity, `SHA-256(TLS SPKI DER)`.
    pub peer_id_spki_hash: [u8; 32],
    /// The network the relay serves.
    pub network_id: String,
    /// Advertised relay capabilities (free-form tokens).
    pub capabilities: Vec<String>,
    /// Publicly dialable relay addresses, IPv6 first, in their standard text form.
    pub addresses: Vec<String>,
    /// The relay protocol version this relay speaks.
    pub protocol_version: u32,
    /// Unix milliseconds at which the descriptor was signed.
    pub timestamp_ms: u64,
    /// Unix milliseconds after which the descriptor is stale.
    pub expires_at: u64,
    /// The BLS G2 signature over the signing transcript, made with the key of `bls_g1_pub`.
    pub sig: [u8; 96],
}

/// A length-prefixed transcript field: the length as a big-endian `u32`, then the bytes.
pub open spec fn field(data: Seq<u8>) -> Seq<u8> {
    be32(data.len() as u32) + data
}

/// The length-prefixed UTF-8 fields of a sequence of strings, one after another.
pub open spec fn str_fields(items: Seq<String>) -> Seq<u8>
    decreases items.len(),
{
    if items.len() == 0 {
        Seq::empty()
    } else {
        field(encode_utf8(items[0]@)) + str_fields(items.drop_first())
    }
}

/// A list of strings in the transcript: its count as a big-endian `u32`, then each string as a
/// length-prefixed field.
pub open spec fn list_field(items: Seq<String>) -> Seq<u8> {
    be32(items.len() as u32) + str_fields(items)
}

/// The descriptor's signing transcript: the domain prefix, then every field except the signature,
/// in declaration order; variable-length fields are length-prefixed.
pub open spec fn transcript(d: RelayDescriptor) -> Seq<u8> {
    DESCRIPTOR_SIG_DOMAIN@ + d.relay_did@ + d.bls_g1_pub@ + d.peer_id_spki_hash@ + field(
        encode_utf8(d.network_id@),
    ) + list_field(d.capabilities@) + list_field(d.addresses@) + be32(d.protocol_version) + be64(
        d.timestamp_ms,
    ) + be64(d.expires_at)
}

/// Two string lists hold the same strings, position by position.
pub open spec fn same_strings(a: Seq<String>, b: Seq<String>) -> bool {
    &&& a.len() == b.len()
    &&& forall|i: int| 0 <= i < a.len() ==> #[trigger] a[i]@ == b[i]@
}

/// Every string of the list, and the list's length, fit the transcript's `u32` length prefixes.
pub open spec fn strings_fit(items: Seq<String>) -> bool {
    &&& items.len() < 0x1_0000_0000
    &&& forall|i: int| 0 <= i < items.len() ==> #[trigger] encode_utf8(items[i]@).len() < 0x1_0000_0000
}

/// Every variable-length field of the descriptor fits its `u32` length prefix.
pub open spec fn transcript_fits(d: RelayDescriptor) -> bool {
    &&& encode_utf8(d.network_id@).len() < 0x1_0000_0000
    &&& strings_fit(d.capabilities@)
    &&& strings_fit(d.addresses@)
}

/// The two descriptors agree on every field that the signature covers (all but `sig`).
pub open spec fn same_signed_content(a: RelayDescriptor, b: RelayDescriptor) -> bool {
    &&& a.relay_did@ == b.relay_did@
    &&& a.bls_g1_pub@ == b.bls_g1_pub@
    &&& a.peer_id_spki_hash@ == b.peer_id_spki_hash@
    &&& a.network_id@ == b.network_id@
    &&& same_strings(a.capabilities@, b.capabilities@)
    &&& same_strings(a.addresses@, b.addresses@)
    &&& a.protocol_version == b.protocol_version
    &&& a.timestamp_ms == b.timestamp_ms
    &&& a.expires_at == b.expires_at
}

proof fn lemma_split_equal(x1: Seq<u8>, y1: Seq<u8>, x2: Seq<u8>, y2: Seq<u8>)
    requires
        x1 + y1 == x2 + y2,
        x1.len() == x2.len(),
    ensures
        x1 == x2,
        y1 == y2,
{
    assert(x1 =~= (x1 + y1).subrange(0, x1.len() as int));
    assert(x2 =~= (x2 + y2).subrange(0, x2.len() as int));
    assert(y1 =~= (x1 + y1).subrange(x1.len() as int, (x1 + y1).len() as int));
    assert(y2 =~= (x2 + y2).subrange(x2.len() as int, (x2 + y2).len() as int));
}

proof fn lemma_split_field(u: Seq<u8>, r1: Seq<u8>, v: Seq<u8>, r2: Seq<u8>)
    requires
        field(u) + r1 == field(v) + r2,
        u.len() < 0x1_0000_0000,
        v.len() < 0x1_0000_0000,
    ensures
        u == v,
        r1 == r2,
{
    assert(field(u) + r1 =~= be32(u.len() as u32) + (u + r1));
    assert(field(v) + r2 =~= be32(v.len() as u32) + (v + r2));
    lemma_split_equal(be32(u.len() as u32), u + r1, be32(v.len() as u32), v + r2);
    crate::bytes::lemma_be32_injective(u.len() as u32, v.len() as u32);
    lemma_split_equal(u, r1, v, r2);
}

proof fn lemma_split_str_fields(a: Seq<String>, r1: Seq<u8>, b: Seq<String>, r2: Seq<u8>)
    requires
        str_fields(a) + r1 == str_fields(b) + r2,
        a.len() == b.len(),
        strings_fit(a),
        strings_fit(b),
    ensures
        same_strings(a, b),
        r1 == r2,
    decreases a.len(),
{
    broadcast use vstd::utf8::encode_utf8_decode_utf8;

    if a.len() == 0 {
        assert(str_fields(a) + r1 =~= r1);
        assert(str_fields(b) + r2 =~= r2);
    } else {
        let ea = encode_utf8(a[0]@);
        let eb = encode_utf8(b[0]@);
        assert(encode_utf8(a[0]@).len() < 0x1_0000_0000);
        assert(encode_utf8(b[0]@).len() < 0x1_0000_0000);
        assert(str_fields(a) + r1 =~= field(ea) + (str_fields(a.drop_first()) + r1));
        assert(str_fields(b) + r2 =~= field(eb) + (str_fields(b.drop_first()) + r2));
        lemma_split_field(ea, str_fields(a.drop_first()) + r1, eb, str_fields(b.drop_first()) + r2);
        assert(a[0]@ == vstd::utf8::decode_utf8(ea));
        assert(b[0]@ == vstd::utf8::decode_utf8(eb));
        assert forall|i: int| 0 <= i < a.drop_first().len() implies #[trigger] encode_utf8(
            a.drop_first()[i]@,
        ).len() < 0x1_0000_0000 by {
            assert(a.drop_first()[i] == a[i + 1]);
        }
        assert forall|i: int| 0 <= i < b.drop_first().len() implies #[trigger] encode_utf8(
            b.drop_first()[i]@,
        ).len() < 0x1_0000_0000 by {
            assert(b.drop_first()[i] == b[i + 1]);
        }
        lemma_split_str_fields(a.drop_first(), r1, b.drop_first(), r2);
        assert forall|i: int| 0 <= i < a.len() implies #[trigger] a[i]@ == b[i]@ by {
            if i > 0 {
                assert(a.drop_first()[i - 1] == a[i]);
                assert(b.drop_first()[i - 1] == b[i]);
            }
        }
    }
}

proof fn lemma_split_list(a: Seq<String>, r1: Seq<u8>, b: Seq<String>, r2: Seq<u8>)
    requires
        list_field(a) + r1 == list_field(b) + r2,
        strings_fit(a),
        strings_fit(b),
    ensures
        same_strings(a, b),
        r1 == r2,
{
    assert(list_field(a) + r1 =~= be32(a.len() as u32) + (str_fields(a) + r1));
    assert(list_field(b) + r2 =~= be32(b.len() as u32) + (str_fields(b) + r2));
    lemma_split_equal(be32(a.len() as u32), str_fields(a) + r1, be32(b.len() as u32), str_fields(b) + r2);
    crate::bytes::lemma_be32_injective(a.len() as u32, b.len() as u32);
    lemma_split_str_fields(a, r1, b, r2);
}

proof fn lemma_same_strings_fields(a: Seq<String>, b: Seq<String>)
    requires
        same_strings(a, b),
    ensures
        str_fields(a) == str_fields(b),
    decreases a.len(),
{
    if a.len() > 0 {
        assert(same_strings(a.drop_first(), b.drop_first())) by {
            assert forall|i: int| 0 <= i < a.drop_first().len() implies #[trigger] a.drop_first()[i]@
                == b.drop_first()[i]@ by {
                assert(a.drop_first()[i] == a[i + 1]);
                assert(b.drop_first()[i] == b[i + 1]);
            }
        }
        lemma_same_strings_fields(a.drop_first(), b.drop_first());
        assert(a[0]@ == b[0]@);
    }
}

/// The transcript after the fixed-size identity fields, grouped from the right.
spec fn transcript_rest(d: RelayDescriptor) -> Seq<u8> {
    field(encode_utf8(d.network_id@)) + (list_field(d.capabilities@) + (list_field(d.addresses@) + (
    be32(d.protocol_version) + (be64(d.timestamp_ms) + be64(d.expires_at)))))
}

/// The signing transcript is unambiguous: when every variable-length field fits its `u32` length
/// prefix, two descriptors have the same transcript exactly when they agree on every field except
/// the signature. No field can be altered, reordered, or shifted into its neighbour without
/// changing the signed bytes, and the signature itself is not part of them.
pub proof fn lemma_transcript_unambiguous(a: RelayDescriptor, b: RelayDescriptor)
    requires
        transcript_fits(a),
        transcript_fits(b),
    ensures
        transcript(a) == transcript(b) <==> same_signed_content(a, b),
{
    let pa = DESCRIPTOR_SIG_DOMAIN@ + a.relay_did@ + a.bls_g1_pub@ + a.peer_id_spki_hash@;
    let pb = DESCRIPTOR_SIG_DOMAIN@ + b.relay_did@ + b.bls_g1_pub@ + b.peer_id_spki_hash@;
    assert(transcript(a) =~= pa + transcript_rest(a));
    assert(transcript(b) =~= pb + transcript_rest(b));
    if transcript(a) == transcript(b) {
        lemma_split_equal(pa, transcript_rest(a), pb, transcript_rest(b));
        assert(a.relay_did@ =~= pa.subrange(26, 58));
        assert(b.relay_did@ =~= pb.subrange(26, 58));
        assert(a.bls_g1_pub@ =~= pa.subrange(58, 106));
        assert(b.bls_g1_pub@ =~= pb.subrange(58, 106));
        assert(a.peer_id_spki_hash@ =~= pa.subrange(106, 138));
        assert(b.peer_id_spki_hash@ =~= pb.subrange(106, 138));
        let ta = list_field(a.capabilities@) + (list_field(a.addresses@) + (be32(a.protocol_version)
            + (be64(a.timestamp_ms) + be64(a.expires_at))));
        let tb = list_field(b.capabilities@) + (list_field(b.addresses@) + (be32(b.protocol_version)
            + (be64(b.timestamp_ms) + be64(b.expires_at))));
        lemma_split_field(encode_utf8(a.network_id@), ta, encode_utf8(b.network_id@), tb);
        assert(a.network_id@ == vstd::utf8::decode_utf8(encode_utf8(a.network_id@))) by {
            vstd::utf8::encode_utf8_decode_utf8(a.network_id@);
        }
        assert(b.network_id@ == vstd::utf8::decode_utf8(encode_utf8(b.network_id@))) by {
            vstd::utf8::encode_utf8_decode_utf8(b.network_id@);
        }
        let ua = list_field(a.addresses@) + (be32(a.protocol_version) + (be64(a.timestamp_ms) + be64(
            a.expires_at,
        )));
        let ub = list_field(b.addresses@) + (be32(b.protocol_version) + (be64(b.timestamp_ms) + be64(
            b.expires_at,
        )));
        lemma_split_list(a.capabilities@, ua, b.capabilities@, ub);
        let va = be32(a.protocol_version) + (be64(a.timestamp_ms) + be64(a.expires_at));
        let vb = be32(b.protocol_version) + (be64(b.timestamp_ms) + be64(b.expires_at));
        lemma_split_list(a.addresses@, va, b.addresses@, vb);
        lemma_split_equal(
            be32(a.protocol_version),
            be64(a.timestamp_ms) + be64(a.expires_at),
            be32(b.protocol_version),
            be64(b.timestamp_ms) + be64(b.expires_at),
        );
        lemma_split_equal(be64(a.timestamp_ms), be64(a.expires_at), be64(b.timestamp_ms), be64(b.expires_at));
        crate::bytes::lemma_be32_injective(a.protocol_version, b.protocol_version);
        crate::bytes::lemma_be64_injective(a.timestamp_ms, b.timestamp_ms);
        crate::bytes::lemma_be64_injective(a.expires_at, b.expires_at);
    }
    if same_signed_content(a, b) {
        lemma_same_strings_fields(a.capabilities@, b.capabilities@);
        lemma_same_strings_fields(a.addresses@, b.addresses@);
        assert(transcript(a) =~= transcript(b));
    }
}

/// The signing transcript's byte layout, offset by offset: the 26-byte domain prefix; the relay
/// DID at bytes 26..58, the BLS public key at 58..106 and the SPKI hash at 106..138, each byte for
/// byte in order; the network id's UTF-8 length as a big-endian `u32` at 138..142 and its bytes
/// right after; the capability count as a big-endian `u32` next; and the transcript ends with the
/// protocol version, the timestamp and the expiry, each big-endian.
pub proof fn lemma_transcript_layout(d: RelayDescriptor)
    ensures
        ({
            let t = transcript(d);
            let n = encode_utf8(d.network_id@).len() as int;
            let n32 = n as u32;
            let c32 = d.capabilities@.len() as u32;
            let v = d.protocol_version;
            let ts = d.timestamp_ms;
            let ex = d.expires_at;
            &&& t.len() >= 150 + n
            &&& t.subrange(0, 26) == DESCRIPTOR_SIG_DOMAIN@
            &&& t.subrange(26, 58) == d.relay_did@
            &&& t.subrange(58, 106) == d.bls_g1_pub@
            &&& t.subrange(106, 138) == d.peer_id_spki_hash@
            &&& t.subrange(138, 142) == seq![(n32 >> 24u32) as u8, (n32 >> 16u32) as u8, (n32 >> 8u32) as u8, n32 as u8]
            &&& t.subrange(142, 142 + n) == encode_utf8(d.network_id@)
            &&& t.subrange(142 + n, 146 + n) == seq![(c32 >> 24u32) as u8, (c32 >> 16u32) as u8, (c32 >> 8u32) as u8, c32 as u8]
            &&& t.subrange(t.len() - 20, t.len() - 16) == seq![(v >> 24u32) as u8, (v >> 16u32) as u8, (v >> 8u32) as u8, v as u8]
            &&& t.subrange(t.len() - 16, t.len() - 8) == seq![
                (ts >> 56u64) as u8,
                (ts >> 48u64) as u8,
                (ts >> 40u64) as u8,
                (ts >> 32u64) as u8,
                (ts >> 24u64) as u8,
                (ts >> 16u64) as u8,
                (ts >> 8u64) as u8,
                ts as u8,
            ]
            &&& t.subrange(t.len() - 8, t.len() as int) == seq![
                (ex >> 56u64) as u8,
                (ex >> 48u64) as u8,
                (ex >> 40u64) as u8,
                (ex >> 32u64) as u8,
                (ex >> 24u64) as u8,
                (ex >> 16u64) as u8,
                (ex >> 8u64) as u8,
                ex as u8,
            ]
        }),
{
    let net = encode_utf8(d.network_id@);
    let n = net.len() as int;
    let head = DESCRIPTOR_SIG_DOMAIN@ + d.relay_did@ + d.bls_g1_pub@ + d.peer_id_spki_hash@;
    let lists = list_field(d.capabilities@) + list_field(d.addresses@);
    let tail = be32(d.protocol_version) + be64(d.timestamp_ms) + be64(d.expires_at);
    let t = transcript(d);
    assert(t =~= head + (be32(n as u32) + (net + (lists + tail))));
    assert(head.len() == 138);
    assert(tail.len() == 20);
    assert(list_field(d.capabilities@).len() >= 4);
    assert(t.subrange(0, 26) =~= DESCRIPTOR_SIG_DOMAIN@);
    assert(t.subrange(26, 58) =~= d.relay_did@);
    assert(t.subrange(58, 106) =~= d.bls_g1_pub@);
    assert(t.subrange(106, 138) =~= d.peer_id_spki_hash@);
    assert(t.subrange(138, 142) =~= be32(n as u32));
    assert(t.subrange(142, 142 + n) =~= net);
    assert(t.subrange(142 + n, 146 + n) =~= be32(d.capabilities@.len() as u32));
    assert(t.subrange(t.len() - 20, t.len() - 16) =~= be32(d.protocol_version));
    assert(t.subrange(t.len() - 16, t.len() - 8) =~= be64(d.timestamp_ms));
    assert(t.subrange(t.len() - 8, t.len() as int) =~= be64(d.expires_at));
}

/// Appending one more string to a list appends one more field to its encoding.
pub proof fn lemma_str_fields_push(items: Seq<String>, s: String)
    ensures
        str_fields(items.push(s)) == str_fields(items) + field(encode_utf8(s@)),
    decreases items.len(),
{
    if items.len() == 0 {
        assert(items.push(s).drop_first() =~= Seq::<String>::empty());
        assert(items.push(s)[0] == s);
        assert(str_fields(Seq::<String>::empty()) == Seq::<u8>::empty());
        assert(str_fields(items) == Seq::<u8>::empty());
        assert(str_fields(items.push(s)) =~= str_fields(items) + field(encode_utf8(s@)));
    } else {
        assert(items.push(s).drop_first() =~= items.drop_first().push(s));
        lemma_str_fields_push(items.drop_first(), s);
        assert(items.push(s)[0] == items[0]);
        assert(str_fields(items.push(s)) =~= str_fields(items) + field(encode_utf8(s@)));
    }
}

/// Appends `data` to `buf` as a length-prefixed field (its length as a big-endian `u32`, then the
/// bytes), so that no field's bytes can run into the next.
pub fn push_field(buf: &mut Vec<u8>, data: &[u8])
    ensures
        final(buf)@ == old(buf)@ + field(data@),
{
    let len = u32_be_bytes(data.len() as u32);
    extend_bytes(buf, &len);
    extend_bytes(buf, data);
    assert(final(buf)@ =~= old(buf)@ + field(data@));
}

/// Appends a list of strings to `buf`: the count, then each string as a length-prefixed field.
fn push_str_list(buf: &mut Vec<u8>, items: &Vec<String>)
    ensures
        final(buf)@ == old(buf)@ + list_field(items@),
{
    let count = u32_be_bytes(items.len() as u32);
    extend_bytes(buf, &count);
    let ghost start = buf@;
    let n = items.len();
    let mut i: usize = 0;
    while i < n
        invariant
            n == items@.len(),
            i <= n,
            buf@ == start + str_fields(items@.subrange(0, i as int)),
            start == old(buf)@ + be32(items@.len() as u32),
        decreases n - i,
    {
        push_field(buf, items[i].as_str().as_bytes());
        proof {
            lemma_str_fields_push(items@.subrange(0, i as int), items@[i as int]);
            assert(items@.subrange(0, i as int).push(items@[i as int]) =~= items@.subrange(
                0,
                i + 1,
            ));
        }
        i = i + 1;
    }
    assert(items@.subrange(0, n as int) =~= items@);
    assert(final(buf)@ =~= old(buf)@ + list_field(items@));
}

impl RelayDescriptor {
    /// The canonical, deterministic byte transcript that [`sig`](RelayDescriptor::sig) covers:
    /// every field except the signature, after the domain prefix, with variable-length fields
    /// length-prefixed.
    pub fn signing_bytes(&self) -> (b: Vec<u8>)
        ensures
            b@ == transcript(*self),
            b@.subrange(0, 26) == DESCRIPTOR_SIG_DOMAIN@,
            b@.subrange(26, 58) == self.relay_did@,
            b@.subrange(58, 106) == self.bls_g1_pub@,
            b@.subrange(106, 138) == self.peer_id_spki_hash@,
    {
        let mut b: Vec<u8> = Vec::new();
        let domain = DESCRIPTOR_SIG_DOMAIN;
        extend_bytes(&mut b, &domain);
        extend_bytes(&mut b, &self.relay_did);
        extend_bytes(&mut b, &self.bls_g1_pub);
        extend_bytes(&mut b, &self.peer_id_spki_hash);
        push_field(&mut b, self.network_id.as_str().as_bytes());
        push_str_list(&mut b, &self.capabilities);
        push_str_list(&mut b, &self.addresses);
        let version = u32_be_bytes(self.protocol_version);
        extend_bytes(&mut b, &version);
        let timestamp = u64_be_bytes(self.timestamp_ms);
        extend_bytes(&mut b, &timestamp);
        let expiry = u64_be_bytes(self.expires_at);
        extend_bytes(&mut b, &expiry);
        assert(b@ =~= transcript(*self));
        proof {
            lemma_transcript_layout(*self);
        }
        b
    }
}


/// Why a [`RelayDescriptor`] failed verification. Each outcome is fail-closed: a descriptor that
/// does not verify is discarded, never trusted.
#[derive(Debug, Clone, Copy, PartialEq, Eq, Structural)]
pub enum DescriptorError {
    /// The advertised `bls_g1_pub` is not a valid G1 subgroup point.
    BadKey,
    /// The BLS G2 signature over the transcript did not verify against `bls_g1_pub`.
    BadSignature,
    /// The presented TLS SPKI does not hash to `peer_id_spki_hash`.
    PeerIdMismatch,
    /// The descriptor is past `expires_at`.
    Expired,
    /// A chain-resolved G1 key for `relay_did` differs from the advertised `bls_g1_pub`.
    DidBindingMismatch,
}

/// The outcome of the descriptor checks, taken in order: the first failed check decides.
pub open spec fn verdict(key_ok: bool, signature_ok: bool, spki_matches: bool, expired: bool) -> Result<
    (),
    DescriptorError,
> {
    if !key_ok {
        Err(DescriptorError::BadKey)
    } else if !signature_ok {
        Err(DescriptorError::BadSignature)
    } else if !spki_matches {
        Err(DescriptorError::PeerIdMismatch)
    } else if expired {
        Err(DescriptorError::Expired)
    } else {
        Ok(())
    }
}

/// What [`RelayDescriptor::verify`] returns for a descriptor, the presented SPKI and the time.
pub open spec fn verify_outcome(d: RelayDescriptor, presented_spki_der: Seq<u8>, now_ms: u64) -> Result<
    (),
    DescriptorError,
> {
    verdict(
        spec_g1_subgroup_check(d.bls_g1_pub@),
        spec_verify_signature(d.bls_g1_pub@, transcript(d), d.sig@),
        spec_sha256(presented_spki_der) == d.peer_id_spki_hash@,
        now_ms > d.expires_at,
    )
}

/// Decides the verification outcome from the results of the individual checks: the key check,
/// the signature check, the SPKI-hash comparison, and freshness at `now_ms`.
pub fn descriptor_verdict(
    key_ok: bool,
    signature_ok: bool,
    spki_matches: bool,
    now_ms: u64,
    expires_at: u64,
) -> (r: Result<(), DescriptorError>)
    ensures
        r == verdict(key_ok, signature_ok, spki_matches, now_ms > expires_at),
{
    if !key_ok {
        return Err(DescriptorError::BadKey);
    }
    if !signature_ok {
        return Err(DescriptorError::BadSignature);
    }
    if !spki_matches {
        return Err(DescriptorError::PeerIdMismatch);
    }
    if now_ms > expires_at {
        return Err(DescriptorError::Expired);
    }
    Ok(())
}

impl RelayDescriptor {
    /// Verifies the descriptor against the relay's live TLS session.
    ///
    /// Checks, fail-closed and in order: the G1 key is a valid subgroup point; the signature
    /// verifies over [`signing_bytes`](RelayDescriptor::signing_bytes); the presented SPKI hashes
    /// to `peer_id_spki_hash`; and the descriptor is not expired at `now_ms`. The first failed
    /// check is reported.
    pub fn verify(&self, presented_spki_der: &[u8], now_ms: u64) -> (r: Result<(), DescriptorError>)
        ensures
            r == verify_outcome(*self, presented_spki_der@, now_ms),
    {
        let key_ok = crate::identity::g1_subgroup_check(&self.bls_g1_pub);
        let transcript_bytes = self.signing_bytes();
        let signature_ok = crate::identity::verify_signature(
            &self.bls_g1_pub,
            transcript_bytes.as_slice(),
            &self.sig,
        );
        let digest = crate::identity::sha256(presented_spki_der);
        let spki_matches = bytes_equal(&digest, &self.peer_id_spki_hash);
        descriptor_verdict(key_ok, signature_ok, spki_matches, now_ms, self.expires_at)
    }

    /// Closes the `relay_did` to `bls_g1_pub` binding with a chain-resolved G1 key: succeeds exactly
    /// when the resolved key equals the advertised one.
    pub fn verify_did_binding(&self, resolved_g1: &[u8; 48]) -> (r: Result<(), DescriptorError>)
        ensures
            r == (if resolved_g1@ == self.bls_g1_pub@ {
                Ok(())
            } else {
                Err(DescriptorError::DidBindingMismatch)
            }),
    {
        if !bytes_equal(resolved_g1, &self.bls_g1_pub) {
            return Err(DescriptorError::DidBindingMismatch);
        }
        Ok(())
    }
}

} // verus!
