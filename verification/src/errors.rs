use vstd::prelude::*;

verus! {

/// The externally observable failure kinds of a receive operation.
///
/// Several distinct causes (missing attestation, wrong attested digest,
/// wrong signer-set hash, wrong destination chain, wrong destination token)
/// collapse into `InvalidSignature` on purpose: a relayer must not learn
/// which of those checks failed.
#[derive(Clone, Copy, Debug, PartialEq, Eq, Structural)]
pub enum BridgeError {
    /// The global pause flag is set; nothing is processed.
    Paused,
    /// The payload bytes or the attestation record do not match the wire layout.
    MalformedPayload,
    /// The attestation does not bind the trusted signer to these exact bytes,
    /// or the payload is not addressed to this chain and this token.
    InvalidSignature,
    /// The supplied nonce is not the exact next value the account expects.
    InvalidNonce,
    /// A transfer-mode release was requested without a custodial pool account.
    MissingCustodialAccount,
}

} // verus!
