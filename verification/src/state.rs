use vstd::prelude::*;
use crate::errors::BridgeError;

verus! {

/// Process-wide configuration, read once at the start of each operation.
/// Administrative operations create and mutate it elsewhere; this library
/// only reads it, and refuses all work while `pause` is set.
pub struct GlobalState {
    /// Digest of the trusted signer's public-key block. An attestation is
    /// accepted only when the digest of its presented keys equals this value.
    pub receive_signer: Vec<u8>,
    /// While set, every receive fails with `Paused` before any other work.
    pub pause: bool,
}

/// The replay guard: one durable counter per receiving user, created lazily
/// with the value zero on the user's first receive. It accepts exactly its
/// current value as a payload nonce and advances by exactly one per
/// successfully completed receive, so the consumed nonces of a user are the
/// gapless sequence starting at zero.
pub struct NonceAccount {
    /// The next nonce this account will accept.
    pub nonce_counter: u64,
}

impl NonceAccount {
    /// A freshly created account expects the first nonce, zero.
    pub fn new() -> (account: NonceAccount)
        ensures
            account.nonce_counter == 0,
    {
        NonceAccount { nonce_counter: 0 }
    }

    /// The next nonce this account will accept.
    pub fn next_expected(&self) -> (n: u64)
        ensures
            n == self.nonce_counter,
    {
        self.nonce_counter
    }

    /// Accepts a supplied nonce exactly when it equals the next expected
    /// value: never less (a replay), never more (a future nonce). Nothing
    /// is mutated; the increment is committed separately, only after the
    /// release has succeeded.
    pub fn check_and_reserve(&self, supplied_nonce: u64) -> (r: Result<(), BridgeError>)
        ensures
            r is Ok <==> supplied_nonce == self.nonce_counter,
            r is Err ==> r == Err::<(), BridgeError>(BridgeError::InvalidNonce),
    {
        if supplied_nonce == self.nonce_counter {
            Ok(())
        } else {
            Err(BridgeError::InvalidNonce)
        }
    }

    /// Advances the counter by exactly one. Called only after the release
    /// operation has succeeded, so a failed release never consumes a nonce.
    pub fn commit(&mut self)
        requires
            old(self).nonce_counter < u64::MAX,
        ensures
            final(self).nonce_counter == old(self).nonce_counter + 1,
    {
        self.nonce_counter = self.nonce_counter + 1;
    }
}

/// The registered configuration of one bridged token, created
/// administratively and read-only here: whether a release mints new supply
/// or transfers from the custodial pool, and the locally derived authority
/// that signs custodial operations.
pub struct TokenConfig {
    /// When set, releases mint new supply; otherwise they move tokens out of
    /// the custodial pool.
    pub is_mintable: bool,
    /// The authority that signs the mint or transfer on behalf of the bridge.
    pub authority: Vec<u8>,
}

} // verus!
