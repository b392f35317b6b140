use vstd::prelude::*;
use vstd::slice::slice_subrange;
use crate::digest::{bytes_eq, keccak256, keccak_of};
use crate::errors::BridgeError;

verus! {

/// Number of 32-byte public-key slots in an attestation record. A protocol
/// parameter: records with fewer trailing bytes than the slots plus the
/// digest demand are malformed, never silently truncated.
pub const SIGNATURE_SLOTS: usize = 5;

/// Least length of an attestation record: one 32-byte slot per public key,
/// then the 32-byte signed digest as the final slot.
pub const ATTESTATION_MIN_LEN: usize = 32 * (SIGNATURE_SLOTS + 1);

/// An attestation record is laid out from its end: it holds at least the
/// key slots and the digest slot.
pub open spec fn attestation_well_formed(d: Seq<u8>) -> bool {
    d.len() >= ATTESTATION_MIN_LEN
}

/// The signed-message digest: the final 32 bytes of the record.
pub open spec fn attested_digest(d: Seq<u8>) -> Seq<u8>
    recommends
        attestation_well_formed(d),
{
    d.subrange(d.len() - 32, d.len() as int)
}

/// The block of public keys presented to the verification step: the
/// `SIGNATURE_SLOTS` 32-byte slots preceding the digest.
pub open spec fn attested_keys(d: Seq<u8>) -> Seq<u8>
    recommends
        attestation_well_formed(d),
{
    d.subrange(d.len() - ATTESTATION_MIN_LEN, d.len() - 32)
}

/// The attestation binds the trusted signer to exactly these payload bytes:
/// the signed digest is the digest of the payload bytes, and the digest of
/// the presented key block is the configured signer value. Hashing the whole
/// key block ties the check to the exact set and order of keys presented,
/// not just to one key's presence.
pub open spec fn signature_valid(d: Seq<u8>, payload_bytes: Seq<u8>, trusted_signer: Seq<u8>) -> bool {
    &&& attested_digest(d) == keccak_of(payload_bytes)
    &&& keccak_of(attested_keys(d)) == trusted_signer
}

/// Checks the attestation record against the raw payload bytes and the
/// configured trusted signer. A record shorter than its fixed trailing
/// layout is `MalformedPayload`; a well-formed record that does not bind
/// this signer to these bytes is `InvalidSignature`.
pub fn verify_signature(attestation: &Vec<u8>, payload_bytes: &Vec<u8>, trusted_signer: &Vec<u8>) -> (r: Result<
    (),
    BridgeError,
>)
    ensures
        r is Ok <==> attestation_well_formed(attestation@) && signature_valid(
            attestation@,
            payload_bytes@,
            trusted_signer@,
        ),
        !attestation_well_formed(attestation@) ==> r == Err::<(), BridgeError>(
            BridgeError::MalformedPayload,
        ),
        attestation_well_formed(attestation@) && !signature_valid(
            attestation@,
            payload_bytes@,
            trusted_signer@,
        ) ==> r == Err::<(), BridgeError>(BridgeError::InvalidSignature),
{
    let n = attestation.len();
    if n < ATTESTATION_MIN_LEN {
        return Err(BridgeError::MalformedPayload);
    }
    let signed_message = slice_subrange(attestation.as_slice(), n - 32, n);
    let signer_pubkeys = slice_subrange(attestation.as_slice(), n - ATTESTATION_MIN_LEN, n - 32);
    let payload_digest = keccak256(payload_bytes.as_slice());
    if !bytes_eq(signed_message, payload_digest.as_slice()) {
        return Err(BridgeError::InvalidSignature);
    }
    let keys_digest = keccak256(signer_pubkeys);
    if !bytes_eq(keys_digest.as_slice(), trusted_signer.as_slice()) {
        return Err(BridgeError::InvalidSignature);
    }
    Ok(())
}

} // verus!
