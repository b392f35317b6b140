use vstd::prelude::*;
use crate::codec::{
    decode, spec_chain_to, spec_payload_nonce, spec_token_to, spec_amount_to, ReceivePayload,
    PAYLOAD_LEN,
};
use crate::digest::bytes_eq;
use crate::errors::BridgeError;
use crate::policy::{action_selected, pool_view, select_release, ReleaseAction};
use crate::sig::{attestation_well_formed, signature_valid, verify_signature};
use crate::digest::keccak_of;
use crate::state::{GlobalState, NonceAccount, TokenConfig};

verus! {

/// Chain identifier under which the local ledger is addressed in payloads:
/// a payload is accepted only when its destination chain id equals it.
pub const LOCAL_CHAIN_ID: u64 = 0x534f4c414e41;

/// Everything one receive operation works on, as a snapshot of plain values:
/// the global configuration, the caller's accounts looked up by the
/// environment, and the raw data of the immediately preceding co-processed
/// signature-verification instruction, where one exists.
pub struct Receive {
    /// Global configuration snapshot, read at the start of the operation.
    pub state: GlobalState,
    /// The recipient's token account for the released funds.
    pub receiver_token_account: Vec<u8>,
    /// The receiving user's replay guard, created on demand.
    pub receiver_nonce_account: NonceAccount,
    /// The registered configuration of the bridged token.
    pub bridge_token: TokenConfig,
    /// The custodial pool token account for this mint, where one was supplied.
    pub bridge_token_account: Option<Vec<u8>>,
    /// The mint the release pays out in.
    pub mint: Vec<u8>,
    /// Raw data of the co-processed signature-verification instruction that
    /// ran immediately before this operation, where the environment found one.
    pub attestation: Option<Vec<u8>>,
}

/// A fully checked receive, waiting only on the custody subsystem: the one
/// release action the payload is entitled to, and the decoded payload to
/// emit once the release has gone through.
#[derive(Debug)]
pub struct PendingRelease {
    pub action: ReleaseAction,
    pub payload: ReceivePayload,
}

/// Whether a receive of `s` under `ctx` is accepted, and the exact error
/// when it is not. The gates stand in their fixed order — pause, payload
/// layout, attestation, signature binding, destination chain, destination
/// token, nonce, custodial account — and the first that fails names the
/// error.
pub open spec fn receive_outcome(ctx: Receive, s: Seq<u8>) -> Result<(), BridgeError> {
    if ctx.state.pause {
        Err(BridgeError::Paused)
    } else if s.len() != PAYLOAD_LEN {
        Err(BridgeError::MalformedPayload)
    } else {
        match ctx.attestation {
            None => Err(BridgeError::InvalidSignature),
            Some(att) => if !attestation_well_formed(att@) {
                Err(BridgeError::MalformedPayload)
            } else if !signature_valid(att@, s, ctx.state.receive_signer@) {
                Err(BridgeError::InvalidSignature)
            } else if spec_chain_to(s) != LOCAL_CHAIN_ID {
                Err(BridgeError::InvalidSignature)
            } else if spec_token_to(s) != ctx.mint@ {
                Err(BridgeError::InvalidSignature)
            } else if spec_payload_nonce(s) != ctx.receiver_nonce_account.nonce_counter {
                Err(BridgeError::InvalidNonce)
            } else if !ctx.bridge_token.is_mintable && ctx.bridge_token_account is None {
                Err(BridgeError::MissingCustodialAccount)
            } else {
                Ok(())
            },
        }
    }
}

/// The gates that precede the nonce check: not paused, payload well laid
/// out, attestation present, well formed and binding the trusted signer to
/// these bytes, destination chain and token matching.
pub open spec fn gates_before_nonce(ctx: Receive, s: Seq<u8>) -> bool {
    &&& !ctx.state.pause
    &&& s.len() == PAYLOAD_LEN
    &&& ctx.attestation matches Some(att) && attestation_well_formed(att@) && signature_valid(
        att@,
        s,
        ctx.state.receive_signer@,
    )
    &&& spec_chain_to(s) == LOCAL_CHAIN_ID
    &&& spec_token_to(s) == ctx.mint@
}

/// Checks a relayer-submitted payload through every gate and, when all of
/// them pass, hands back the release it is entitled to. Nothing is mutated:
/// the nonce commits separately, in `finish_receive`, once the custody
/// subsystem has succeeded.
pub fn receive(ctx: &Receive, serialized_args: &Vec<u8>) -> (r: Result<PendingRelease, BridgeError>)
    ensures
        r is Ok <==> receive_outcome(*ctx, serialized_args@) is Ok,
        r matches Err(e) ==> receive_outcome(*ctx, serialized_args@) == Err::<(), BridgeError>(e),
        r matches Ok(pending) ==> pending.payload.decodes_from(serialized_args@),
        r matches Ok(pending) ==> action_selected(
            pending.action,
            ctx.bridge_token,
            ctx.mint@,
            ctx.receiver_token_account@,
            pool_view(ctx.bridge_token_account),
            spec_amount_to(serialized_args@),
        ),
{
    if ctx.state.pause {
        return Err(BridgeError::Paused);
    }
    let payload = match decode(serialized_args.as_slice()) {
        Ok(p) => p,
        Err(e) => {
            return Err(e);
        },
    };
    let att = match &ctx.attestation {
        Some(att) => att,
        None => {
            return Err(BridgeError::InvalidSignature);
        },
    };
    match verify_signature(att, serialized_args, &ctx.state.receive_signer) {
        Ok(_) => {},
        Err(e) => {
            return Err(e);
        },
    }
    if payload.chain_to != LOCAL_CHAIN_ID {
        return Err(BridgeError::InvalidSignature);
    }
    if !bytes_eq(payload.token_address_to.as_slice(), ctx.mint.as_slice()) {
        return Err(BridgeError::InvalidSignature);
    }
    let supplied_nonce = payload.nonce();
    match ctx.receiver_nonce_account.check_and_reserve(supplied_nonce) {
        Ok(_) => {},
        Err(e) => {
            return Err(e);
        },
    }
    let action = match select_release(
        &ctx.bridge_token,
        &ctx.mint,
        &ctx.receiver_token_account,
        &ctx.bridge_token_account,
        payload.amount_to,
    ) {
        Ok(action) => action,
        Err(e) => {
            return Err(e);
        },
    };
    Ok(PendingRelease { action, payload })
}

/// The step after the custody subsystem has run: exactly when the release
/// succeeded, the nonce commits and the payload comes back as the event to
/// emit; on a failed release the counter is untouched and nothing is
/// emitted, so the whole operation leaves no trace.
pub fn finish_receive(account: &mut NonceAccount, pending: PendingRelease, released: bool) -> (event: Option<
    ReceivePayload,
>)
    requires
        released ==> old(account).nonce_counter < u64::MAX,
    ensures
        released ==> final(account).nonce_counter == old(account).nonce_counter + 1,
        !released ==> *final(account) == *old(account),
        event is Some <==> released,
        event matches Some(p) ==> p == pending.payload,
{
    if released {
        account.commit();
        Some(pending.payload)
    } else {
        None
    }
}

/// Law: nonce monotonicity. A receive is accepted only when the payload
/// consumes exactly the counter's current value, so across the successful
/// receives of one user the consumed nonces are the gapless sequence the
/// counter walks through; a payload carrying any other nonce is never
/// accepted, and once every earlier gate passes its rejection is
/// `InvalidNonce`.
pub proof fn lemma_nonce_monotonicity(ctx: Receive, s: Seq<u8>)
    ensures
        receive_outcome(ctx, s) is Ok ==> spec_payload_nonce(s)
            == ctx.receiver_nonce_account.nonce_counter,
        spec_payload_nonce(s) != ctx.receiver_nonce_account.nonce_counter ==> !(receive_outcome(
            ctx,
            s,
        ) is Ok),
        gates_before_nonce(ctx, s) && spec_payload_nonce(s)
            != ctx.receiver_nonce_account.nonce_counter ==> receive_outcome(ctx, s) == Err::<
            (),
            BridgeError,
        >(BridgeError::InvalidNonce),
{
}

/// Law: gapless nonce sequence. From a freshly created account, when each
/// successful receive commits its nonce before the next one runs (each later
/// context carries the counter of the one before advanced by one), the nonce
/// consumed by the receive at position `i` is exactly `i`: the consumed
/// nonces are `0, 1, 2, ...` with no gap and no repeat.
pub proof fn lemma_gapless_nonce_sequence(ctxs: Seq<Receive>, payloads: Seq<Seq<u8>>, i: int)
    requires
        ctxs.len() == payloads.len(),
        0 <= i < ctxs.len(),
        ctxs[0].receiver_nonce_account.nonce_counter == 0,
        forall|j: int|
            0 <= j < ctxs.len() ==> #[trigger] receive_outcome(ctxs[j], payloads[j]) is Ok,
        forall|j: int|
            #![trigger ctxs[j]]
            0 < j < ctxs.len() ==> ctxs[j].receiver_nonce_account.nonce_counter == ctxs[j
                - 1].receiver_nonce_account.nonce_counter + 1,
    ensures
        ctxs[i].receiver_nonce_account.nonce_counter == i,
        spec_payload_nonce(payloads[i]) == i,
    decreases i,
{
    if i > 0 {
        lemma_gapless_nonce_sequence(ctxs, payloads, i - 1);
    }
    assert(receive_outcome(ctxs[i], payloads[i]) is Ok);
}

/// Law: replay immunity. Once a payload has been accepted and the nonce has
/// committed, resubmitting the identical bytes under the advanced counter
/// fails with `InvalidNonce`: every check before the nonce passes as before,
/// and the consumed nonce no longer matches.
pub proof fn lemma_replay_immunity(ctx: Receive, s: Seq<u8>, resubmitted: Receive)
    requires
        receive_outcome(ctx, s) is Ok,
        ctx.receiver_nonce_account.nonce_counter < u64::MAX,
        resubmitted == (Receive {
            receiver_nonce_account: NonceAccount {
                nonce_counter: (ctx.receiver_nonce_account.nonce_counter + 1) as u64,
            },
            ..ctx
        }),
    ensures
        receive_outcome(resubmitted, s) == Err::<(), BridgeError>(BridgeError::InvalidNonce),
{
}

/// Law: signature binding. An accepted attestation binds the exact submitted
/// bytes: any same-length submission whose keccak digest differs from the
/// accepted one — and altering any byte alters the digest, a property of the
/// hash taken as a hypothesis here — is rejected as `InvalidSignature`, even
/// under an untouched attestation record.
pub proof fn lemma_signature_binding(ctx: Receive, s: Seq<u8>, altered: Seq<u8>)
    requires
        receive_outcome(ctx, s) is Ok,
        altered.len() == s.len(),
        keccak_of(altered) != keccak_of(s),
    ensures
        receive_outcome(ctx, altered) == Err::<(), BridgeError>(BridgeError::InvalidSignature),
{
}

/// Law: policy exclusivity. With every gate up to and including the nonce
/// passed, a mintable token is always released, through the mint path and
/// with no need of a custodial pool account; a non-mintable token is
/// released through the transfer path exactly when a pool account stands,
/// and fails with `MissingCustodialAccount` exactly when none does. The mint
/// path is taken exactly by mintable tokens, whatever the other inputs.
pub proof fn lemma_policy_exclusivity(ctx: Receive, s: Seq<u8>)
    requires
        gates_before_nonce(ctx, s),
        spec_payload_nonce(s) == ctx.receiver_nonce_account.nonce_counter,
    ensures
        ctx.bridge_token.is_mintable ==> receive_outcome(ctx, s) is Ok,
        !ctx.bridge_token.is_mintable && ctx.bridge_token_account is Some ==> receive_outcome(
            ctx,
            s,
        ) is Ok,
        !ctx.bridge_token.is_mintable && ctx.bridge_token_account is None ==> receive_outcome(
            ctx,
            s,
        ) == Err::<(), BridgeError>(BridgeError::MissingCustodialAccount),
        forall|action: ReleaseAction|
            #[trigger] action_selected(
                action,
                ctx.bridge_token,
                ctx.mint@,
                ctx.receiver_token_account@,
                pool_view(ctx.bridge_token_account),
                spec_amount_to(s),
            ) ==> (ctx.bridge_token.is_mintable <==> action is Mint),
{
}

/// Law: chain and token scoping. A payload naming another destination chain,
/// or another destination token than the supplied mint, is never accepted,
/// whatever its signature, amount or nonce; and when it is otherwise fully
/// attested, its rejection is `InvalidSignature`, indistinguishable from a
/// bad signature.
pub proof fn lemma_chain_token_scoping(ctx: Receive, s: Seq<u8>)
    ensures
        spec_chain_to(s) != LOCAL_CHAIN_ID ==> !(receive_outcome(ctx, s) is Ok),
        spec_token_to(s) != ctx.mint@ ==> !(receive_outcome(ctx, s) is Ok),
        (!ctx.state.pause && s.len() == PAYLOAD_LEN && (ctx.attestation matches Some(att)
            && attestation_well_formed(att@) && signature_valid(att@, s, ctx.state.receive_signer@))
            && (spec_chain_to(s) != LOCAL_CHAIN_ID || spec_token_to(s) != ctx.mint@))
            ==> receive_outcome(ctx, s) == Err::<(), BridgeError>(BridgeError::InvalidSignature),
{
}

} // verus!
