//! The BLS12-381 identity primitives of `dig-identity` that the relay wire relies on: key
//! derivation, public keys, BLS-G2 signing and verification, the G1 subgroup check, and SHA-256.
//!
//! Secret keys are handled as their canonical 32-byte big-endian scalar encoding, so that what a
//! key signs or which public key it has can be named as a function of plain bytes. Each function
//! here converts those bytes to the library's key type right before the call.

use vstd::prelude::*;
use dig_identity::bls::SecretKey;

verus! {


/// What `dig_identity::bls::g1_subgroup_check` returns for a 48-byte compressed G1 point.
pub uninterp spec fn spec_g1_subgroup_check(pk: Seq<u8>) -> bool;

/// What `dig_identity::bls::verify_signature` returns for a key, a message and a signature.
pub uninterp spec fn spec_verify_signature(pk: Seq<u8>, msg: Seq<u8>, sig: Seq<u8>) -> bool;

/// What `dig_identity::hash::sha256` returns for the given bytes.
pub uninterp spec fn spec_sha256(data: Seq<u8>) -> Seq<u8>;

/// The encoding of the master secret key `dig_identity::bls::master_secret_key_from_seed` derives
/// from a seed.
pub uninterp spec fn spec_master_secret_key(seed: Seq<u8>) -> Seq<u8>;

/// The encoding of the identity secret key `dig_identity::bls::derive_identity_sk` derives from the
/// encoding of a master secret key.
pub uninterp spec fn spec_derive_identity_sk(master: Seq<u8>) -> Seq<u8>;

/// What `dig_identity::bls::public_key_bytes` returns for the secret key with this encoding.
pub uninterp spec fn spec_public_key(sk: Seq<u8>) -> Seq<u8>;

/// What `dig_identity::bls::sign_message` returns for the secret key with this encoding and a
/// message.
pub uninterp spec fn spec_sign(sk: Seq<u8>, msg: Seq<u8>) -> Seq<u8>;

/// The natural number that a byte string encodes in big-endian order.
pub open spec fn be_value(bytes: Seq<u8>) -> nat
    decreases bytes.len(),
{
    if bytes.len() == 0 {
        0
    } else {
        be_value(bytes.drop_last()) * 256 + (bytes.last() as nat)
    }
}

/// The order `r` of the BLS12-381 scalar group.
pub open spec fn bls_group_order() -> nat {
    0x73eda753299d7d483339d80809a1d80553bda402fffe5bfeffffffff00000001nat
}

/// Whether `SecretKey::from_bytes` accepts these bytes as a secret-key encoding: 32 bytes whose
/// big-endian value is zero or a non-zero scalar below the group order.
pub open spec fn spec_secret_key_valid(bytes: Seq<u8>) -> bool {
    bytes.len() == 32 && be_value(bytes) < bls_group_order()
}

/// Calls `dig_identity::bls::g1_subgroup_check`; the result is named by `spec_g1_subgroup_check`.
#[verifier::external_body]
pub(crate) fn g1_subgroup_check(pk: &[u8; 48]) -> (r: bool)
    ensures
        r == spec_g1_subgroup_check(pk@),
{
    dig_identity::bls::g1_subgroup_check(pk)
}

/// Calls `dig_identity::bls::verify_signature` (Chia AugScheme BLS verification, false on any
/// malformed key or signature); the result is named by `spec_verify_signature`.
#[verifier::external_body]
pub(crate) fn verify_signature(pk: &[u8; 48], msg: &[u8], sig: &[u8; 96]) -> (r: bool)
    ensures
        r == spec_verify_signature(pk@, msg@, sig@),
{
    dig_identity::bls::verify_signature(pk, msg, sig)
}

/// Calls `dig_identity::hash::sha256`; the digest is named by `spec_sha256`.
#[verifier::external_body]
pub(crate) fn sha256(data: &[u8]) -> (r: [u8; 32])
    ensures
        r@ == spec_sha256(data@),
{
    dig_identity::hash::sha256(data)
}

/// Calls `dig_identity::bls::master_secret_key_from_seed` and returns the key's encoding (the
/// function panics on a seed shorter than 32 bytes, which `requires` excludes). The encoding comes
/// from `SecretKey::to_bytes` and is therefore accepted by `SecretKey::from_bytes`.
#[verifier::external_body]
pub(crate) fn master_secret_key_from_seed(seed: &[u8]) -> (r: [u8; 32])
    requires
        seed@.len() >= 32,
    ensures
        r@ == spec_master_secret_key(seed@),
        spec_secret_key_valid(r@),
{
    dig_identity::bls::master_secret_key_from_seed(seed).to_bytes()
}

/// Calls `dig_identity::bls::derive_identity_sk` on the key with encoding `master` and returns
/// the derived key's encoding, which `SecretKey::from_bytes` accepts.
#[verifier::external_body]
pub(crate) fn derive_identity_sk(master: &[u8; 32]) -> (r: [u8; 32])
    requires
        spec_secret_key_valid(master@),
    ensures
        r@ == spec_derive_identity_sk(master@),
        spec_secret_key_valid(r@),
{
    let master = SecretKey::from_bytes(master).expect("a valid secret-key encoding");
    dig_identity::bls::derive_identity_sk(&master).to_bytes()
}

/// Calls `dig_identity::bls::public_key_bytes` on the key with encoding `sk`; the result is named
/// by `spec_public_key`. It also claims that the public key of a non-zero scalar below the group
/// order, a non-identity point of the prime-order group G1, passes `g1_subgroup_check`.
#[verifier::external_body]
pub(crate) fn public_key_bytes(sk: &[u8; 32]) -> (r: [u8; 48])
    requires
        spec_secret_key_valid(sk@),
    ensures
        r@ == spec_public_key(sk@),
        be_value(sk@) != 0 ==> spec_g1_subgroup_check(r@),
{
    let sk = SecretKey::from_bytes(sk).expect("a valid secret-key encoding");
    dig_identity::bls::public_key_bytes(&sk)
}

/// Calls `dig_identity::bls::sign_message` (Chia AugScheme BLS-G2 signing) with the key of
/// encoding `sk`; the signature is named by `spec_sign`. It also claims the scheme's correctness:
/// when the key's public key is a valid non-identity G1 point, `verify_signature` accepts the
/// signature for that public key and message.
#[verifier::external_body]
pub(crate) fn sign_message(sk: &[u8; 32], msg: &[u8]) -> (r: [u8; 96])
    requires
        spec_secret_key_valid(sk@),
    ensures
        r@ == spec_sign(sk@, msg@),
        spec_g1_subgroup_check(spec_public_key(sk@)) ==> spec_verify_signature(
            spec_public_key(sk@),
            msg@,
            r@,
        ),
{
    let sk = SecretKey::from_bytes(sk).expect("a valid secret-key encoding");
    dig_identity::bls::sign_message(&sk, msg)
}

} // verus!
