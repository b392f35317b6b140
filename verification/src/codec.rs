use vstd::prelude::*;
use vstd::bytes::{spec_u64_from_le_bytes, u64_from_le_bytes};
use vstd::slice::{slice_subrange, slice_to_vec};
use crate::errors::BridgeError;

verus! {

/// Length of the auxiliary flag-data block at the tail of a payload; its
/// first 8 bytes carry the replay nonce, big endian.
pub const FLAG_DATA_LEN: usize = 32;

/// Exact length of a serialized receive payload. The wire layout is fixed:
/// origin chain id (8 bytes, little endian) | origin token identity (32) |
/// destination chain id (8, little endian) | destination token identity (32) |
/// amount (8, little endian) | flag data (`FLAG_DATA_LEN`).
pub const PAYLOAD_LEN: usize = 8 + 32 + 8 + 32 + 8 + FLAG_DATA_LEN;

/// A 64-bit integer read from 8 big-endian bytes.
pub open spec fn spec_u64_from_be_bytes(s: Seq<u8>) -> u64
    recommends
        s.len() == 8,
{
    (s[0] as u64) << 56 | (s[1] as u64) << 48 | (s[2] as u64) << 40 | (s[3] as u64) << 32
        | (s[4] as u64) << 24 | (s[5] as u64) << 16 | (s[6] as u64) << 8 | (s[7] as u64)
}

pub fn u64_from_be_bytes(s: &[u8]) -> (x: u64)
    requires
        s@.len() == 8,
    ensures
        x == spec_u64_from_be_bytes(s@),
{
    (s[0] as u64) << 56 | (s[1] as u64) << 48 | (s[2] as u64) << 40 | (s[3] as u64) << 32
        | (s[4] as u64) << 24 | (s[5] as u64) << 16 | (s[6] as u64) << 8 | (s[7] as u64)
}

/// The origin chain id named by a serialized payload.
pub open spec fn spec_chain_from(s: Seq<u8>) -> u64 {
    spec_u64_from_le_bytes(s.subrange(0, 8))
}

/// The origin token identity named by a serialized payload.
pub open spec fn spec_token_from(s: Seq<u8>) -> Seq<u8> {
    s.subrange(8, 40)
}

/// The destination chain id named by a serialized payload.
pub open spec fn spec_chain_to(s: Seq<u8>) -> u64 {
    spec_u64_from_le_bytes(s.subrange(40, 48))
}

/// The destination token identity named by a serialized payload.
pub open spec fn spec_token_to(s: Seq<u8>) -> Seq<u8> {
    s.subrange(48, 80)
}

/// The amount to release, as named by a serialized payload.
pub open spec fn spec_amount_to(s: Seq<u8>) -> u64 {
    spec_u64_from_le_bytes(s.subrange(80, 88))
}

/// The flag-data block of a serialized payload.
pub open spec fn spec_flag_data(s: Seq<u8>) -> Seq<u8> {
    s.subrange(88, 120)
}

/// The replay nonce carried in the first 8 bytes of a flag-data block.
pub open spec fn spec_nonce_of(flag_data: Seq<u8>) -> u64 {
    spec_u64_from_be_bytes(flag_data.subrange(0, 8))
}

/// The replay nonce carried by a serialized payload.
pub open spec fn spec_payload_nonce(s: Seq<u8>) -> u64 {
    spec_nonce_of(spec_flag_data(s))
}

/// A cross-chain message, decoded from its wire bytes. Constructed by
/// `decode`, consumed within a single receive operation, never persisted.
#[derive(Debug)]
pub struct ReceivePayload {
    /// Chain the deposit was made on.
    pub chain_from: u64,
    /// Token that was deposited on the origin chain.
    pub token_address_from: Vec<u8>,
    /// Chain the release is addressed to; must be the local chain.
    pub chain_to: u64,
    /// Token to release here; must be the supplied mint.
    pub token_address_to: Vec<u8>,
    /// Amount to release.
    pub amount_to: u64,
    /// Auxiliary block; its first 8 bytes carry the nonce, big endian.
    pub flag_data: Vec<u8>,
}

impl ReceivePayload {
    /// The replay nonce this payload consumes.
    pub open spec fn spec_nonce(self) -> u64 {
        spec_nonce_of(self.flag_data@)
    }

    /// Field-by-field agreement with a serialized payload.
    pub open spec fn decodes_from(self, s: Seq<u8>) -> bool {
        &&& s.len() == PAYLOAD_LEN
        &&& self.chain_from == spec_chain_from(s)
        &&& self.token_address_from@ == spec_token_from(s)
        &&& self.chain_to == spec_chain_to(s)
        &&& self.token_address_to@ == spec_token_to(s)
        &&& self.amount_to == spec_amount_to(s)
        &&& self.flag_data@ == spec_flag_data(s)
    }

    /// The replay nonce this payload consumes.
    pub fn nonce(&self) -> (n: u64)
        requires
            self.flag_data@.len() >= 8,
        ensures
            n == self.spec_nonce(),
    {
        let first = slice_subrange(self.flag_data.as_slice(), 0, 8);
        u64_from_be_bytes(first)
    }
}

/// Parses a byte buffer into a structured payload. The layout is fixed, so a
/// buffer parses exactly when it has the exact payload length; anything else
/// is `MalformedPayload`.
pub fn decode(bytes: &[u8]) -> (r: Result<ReceivePayload, BridgeError>)
    ensures
        r is Ok <==> bytes@.len() == PAYLOAD_LEN,
        r matches Ok(p) ==> p.decodes_from(bytes@),
        r is Err ==> r == Err::<ReceivePayload, BridgeError>(BridgeError::MalformedPayload),
{
    if bytes.len() != PAYLOAD_LEN {
        return Err(BridgeError::MalformedPayload);
    }
    let chain_from = u64_from_le_bytes(slice_subrange(bytes, 0, 8));
    let token_address_from = slice_to_vec(slice_subrange(bytes, 8, 40));
    let chain_to = u64_from_le_bytes(slice_subrange(bytes, 40, 48));
    let token_address_to = slice_to_vec(slice_subrange(bytes, 48, 80));
    let amount_to = u64_from_le_bytes(slice_subrange(bytes, 80, 88));
    let flag_data = slice_to_vec(slice_subrange(bytes, 88, 120));
    Ok(ReceivePayload {
        chain_from,
        token_address_from,
        chain_to,
        token_address_to,
        amount_to,
        flag_data,
    })
}

} // verus!
