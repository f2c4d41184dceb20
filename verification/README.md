# dig_relay_protocol

The node-to-relay wire protocol of the DIG Network relay, as a Verus-verified library: the
message types, the relay descriptor and its signing transcript, the message-type bands of the
sealed control and mesh frames, and the seal and open paths over `dig-message`.

- `src/bytes.rs` — big-endian encoders and byte helpers of the signing transcript.
- `src/descriptor.rs` — `RelayDescriptor`, its transcript (`signing_bytes`, proved unambiguous),
  and its verification against a TLS SPKI and a chain-resolved key.
- `src/identity.rs` — the `dig-identity` BLS primitives the library calls, with their contracts.
- `src/ids.rs`, `src/ids/` — the band and message-type constants.
- `src/message.rs`, `src/mesh.rs` — the node-to-relay and relay-to-relay message sets.
- `src/envelope.rs` — the `dig-message` envelope held as plain values, the seal, decode and
  open calls with what they are known to do, and the replay guard's model.
- `src/seal.rs` — identities, the sealable-frame tables, band checks, seal/open, and session
  negotiation, with the band, negotiation, seal-then-open and replay laws.
- `app/` — serde copies of the message types (JSON on the wire, `SocketAddr` fields) and the
  typed seal/open entry points that encode and decode JSON around the library, with the JSON
  known-answer tests.
- `tests/` — behaviour tests, including the seal round trips against the real crypto.
