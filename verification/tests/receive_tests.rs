use anchor_lang::solana_program::keccak::hash;
use bridge_svm::codec::decode;
use bridge_svm::errors::BridgeError;
use bridge_svm::policy::ReleaseAction;
use bridge_svm::receive::{finish_receive, receive, Receive, LOCAL_CHAIN_ID};
use bridge_svm::state::{GlobalState, NonceAccount, TokenConfig};

fn key(tag: u8) -> Vec<u8> {
    vec![tag; 32]
}

fn payload_bytes(
    chain_from: u64,
    token_from: &[u8],
    chain_to: u64,
    token_to: &[u8],
    amount: u64,
    nonce: u64,
) -> Vec<u8> {
    let mut out = Vec::new();
    out.extend_from_slice(&chain_from.to_le_bytes());
    out.extend_from_slice(token_from);
    out.extend_from_slice(&chain_to.to_le_bytes());
    out.extend_from_slice(token_to);
    out.extend_from_slice(&amount.to_le_bytes());
    out.extend_from_slice(&nonce.to_be_bytes());
    out.extend_from_slice(&[0u8; 24]);
    out
}

fn attestation_for(payload: &[u8], keys: &[u8]) -> Vec<u8> {
    let mut out = Vec::new();
    out.extend_from_slice(keys);
    out.extend_from_slice(&hash(payload).to_bytes());
    out
}

fn signer_for(keys: &[u8]) -> Vec<u8> {
    hash(keys).to_bytes().to_vec()
}

fn keys_block() -> Vec<u8> {
    vec![1u8; 160]
}

fn base_ctx(counter: u64, mintable: bool, pool: Option<Vec<u8>>, payload: &[u8]) -> Receive {
    let keys = keys_block();
    Receive {
        state: GlobalState {
            receive_signer: signer_for(&keys),
            pause: false,
        },
        receiver_token_account: key(7),
        receiver_nonce_account: NonceAccount {
            nonce_counter: counter,
        },
        bridge_token: TokenConfig {
            is_mintable: mintable,
            authority: key(9),
        },
        bridge_token_account: pool,
        mint: key(5),
        attestation: Some(attestation_for(payload, &keys)),
    }
}

fn good_payload(amount: u64, nonce: u64) -> Vec<u8> {
    payload_bytes(22, &key(3), LOCAL_CHAIN_ID, &key(5), amount, nonce)
}

#[test]
fn mint_release_example() {
    let payload = good_payload(100, 3);
    let mut ctx = base_ctx(3, true, None, &payload);
    let pending = receive(&ctx, &payload).expect("fully checked payload must be released");
    match &pending.action {
        ReleaseAction::Mint {
            authority,
            mint,
            recipient,
            amount,
        } => {
            assert_eq!(authority, &key(9));
            assert_eq!(mint, &key(5));
            assert_eq!(recipient, &key(7));
            assert_eq!(*amount, 100);
        }
        ReleaseAction::Transfer { .. } => panic!("mintable token must take the mint path"),
    }
    assert_eq!(pending.payload.amount_to, 100);
    let event = finish_receive(&mut ctx.receiver_nonce_account, pending, true);
    assert_eq!(ctx.receiver_nonce_account.nonce_counter, 4);
    assert!(event.is_some());

    // Resubmitting the identical bytes must now fail on the nonce.
    let replay = receive(&ctx, &payload);
    assert_eq!(replay.err(), Some(BridgeError::InvalidNonce));
    assert_eq!(ctx.receiver_nonce_account.nonce_counter, 4);
}

#[test]
fn transfer_release_uses_pool() {
    let payload = good_payload(250, 0);
    let ctx = base_ctx(0, false, Some(key(11)), &payload);
    let pending = receive(&ctx, &payload).expect("transfer-mode release with a pool must succeed");
    match &pending.action {
        ReleaseAction::Transfer {
            authority,
            pool,
            recipient,
            amount,
        } => {
            assert_eq!(authority, &key(9));
            assert_eq!(pool, &key(11));
            assert_eq!(recipient, &key(7));
            assert_eq!(*amount, 250);
        }
        ReleaseAction::Mint { .. } => panic!("non-mintable token must take the transfer path"),
    }
}

#[test]
fn missing_custodial_account() {
    let payload = good_payload(250, 0);
    let ctx = base_ctx(0, false, None, &payload);
    let r = receive(&ctx, &payload);
    assert_eq!(r.err(), Some(BridgeError::MissingCustodialAccount));
}

#[test]
fn paused_refuses_all() {
    let payload = good_payload(1, 0);
    let mut ctx = base_ctx(0, true, None, &payload);
    ctx.state.pause = true;
    let r = receive(&ctx, &payload);
    assert_eq!(r.err(), Some(BridgeError::Paused));
}

#[test]
fn malformed_payload_length() {
    let mut payload = good_payload(1, 0);
    payload.pop();
    let ctx = base_ctx(0, true, None, &payload);
    let r = receive(&ctx, &payload);
    assert_eq!(r.err(), Some(BridgeError::MalformedPayload));
}

#[test]
fn short_attestation_record() {
    let payload = good_payload(1, 0);
    let mut ctx = base_ctx(0, true, None, &payload);
    let mut att = ctx.attestation.take().unwrap();
    att.remove(0);
    ctx.attestation = Some(att);
    let r = receive(&ctx, &payload);
    assert_eq!(r.err(), Some(BridgeError::MalformedPayload));
}

#[test]
fn missing_attestation() {
    let payload = good_payload(1, 0);
    let mut ctx = base_ctx(0, true, None, &payload);
    ctx.attestation = None;
    let r = receive(&ctx, &payload);
    assert_eq!(r.err(), Some(BridgeError::InvalidSignature));
}

#[test]
fn tampered_amount_rejected() {
    let payload = good_payload(100, 0);
    let ctx = base_ctx(0, true, None, &payload);
    // The attestation signs the payload as built; raise the amount afterwards.
    let mut tampered = payload.clone();
    tampered[80] = tampered[80].wrapping_add(1);
    let r = receive(&ctx, &tampered);
    assert_eq!(r.err(), Some(BridgeError::InvalidSignature));
    // The untouched bytes still pass.
    assert!(receive(&ctx, &payload).is_ok());
}

#[test]
fn tampered_nonce_rejected() {
    let payload = good_payload(100, 0);
    let ctx = base_ctx(1, true, None, &payload);
    // Bump the embedded nonce to the expected value without re-signing.
    let mut tampered = payload.clone();
    tampered[95] = 1;
    let r = receive(&ctx, &tampered);
    assert_eq!(r.err(), Some(BridgeError::InvalidSignature));
}

#[test]
fn wrong_signer_set_rejected() {
    let payload = good_payload(100, 0);
    let mut ctx = base_ctx(0, true, None, &payload);
    // An attestation over a different key block: digest matches, signer not.
    ctx.attestation = Some(attestation_for(&payload, &vec![2u8; 160]));
    let r = receive(&ctx, &payload);
    assert_eq!(r.err(), Some(BridgeError::InvalidSignature));
}

#[test]
fn wrong_destination_chain() {
    let payload = payload_bytes(22, &key(3), LOCAL_CHAIN_ID + 1, &key(5), 100, 0);
    let ctx = base_ctx(0, true, None, &payload);
    let r = receive(&ctx, &payload);
    assert_eq!(r.err(), Some(BridgeError::InvalidSignature));
}

#[test]
fn wrong_destination_token() {
    let payload = payload_bytes(22, &key(3), LOCAL_CHAIN_ID, &key(6), 100, 0);
    let ctx = base_ctx(0, true, None, &payload);
    let r = receive(&ctx, &payload);
    assert_eq!(r.err(), Some(BridgeError::InvalidSignature));
}

#[test]
fn future_nonce_rejected() {
    let payload = good_payload(100, 4);
    let ctx = base_ctx(3, true, None, &payload);
    let r = receive(&ctx, &payload);
    assert_eq!(r.err(), Some(BridgeError::InvalidNonce));
}

#[test]
fn old_nonce_rejected() {
    let payload = good_payload(100, 2);
    let ctx = base_ctx(3, true, None, &payload);
    let r = receive(&ctx, &payload);
    assert_eq!(r.err(), Some(BridgeError::InvalidNonce));
}

#[test]
fn failed_release_keeps_counter() {
    let payload = good_payload(100, 3);
    let mut ctx = base_ctx(3, true, None, &payload);
    let pending = receive(&ctx, &payload).expect("checks must pass");
    let event = finish_receive(&mut ctx.receiver_nonce_account, pending, false);
    assert!(event.is_none());
    assert_eq!(ctx.receiver_nonce_account.nonce_counter, 3);
    // The operation can be retried and still succeeds.
    assert!(receive(&ctx, &payload).is_ok());
}

#[test]
fn decode_reads_every_field() {
    let payload = payload_bytes(0x0102030405060708, &key(3), LOCAL_CHAIN_ID, &key(5), 77, 258);
    let decoded = decode(&payload).expect("exact-length buffer must decode");
    assert_eq!(decoded.chain_from, 0x0102030405060708);
    assert_eq!(decoded.token_address_from, key(3));
    assert_eq!(decoded.chain_to, LOCAL_CHAIN_ID);
    assert_eq!(decoded.token_address_to, key(5));
    assert_eq!(decoded.amount_to, 77);
    assert_eq!(decoded.flag_data.len(), 32);
    // 258 = 0x0102 stands big endian in the first 8 flag bytes.
    assert_eq!(&decoded.flag_data[0..8], &[0, 0, 0, 0, 0, 0, 1, 2]);
    assert_eq!(decoded.nonce(), 258);
}

#[test]
fn decode_rejects_wrong_length() {
    assert_eq!(
        decode(&[0u8; 119]).err(),
        Some(BridgeError::MalformedPayload)
    );
    assert_eq!(
        decode(&[0u8; 121]).err(),
        Some(BridgeError::MalformedPayload)
    );
    assert_eq!(decode(&[]).err(), Some(BridgeError::MalformedPayload));
}

#[test]
fn consumed_nonces_are_gapless() {
    let mut account = NonceAccount::new();
    for step in 0u64..3 {
        let payload = good_payload(10, step);
        let ctx = base_ctx(account.nonce_counter, true, None, &payload);
        let pending = receive(&ctx, &payload).expect("the expected nonce must be accepted");
        let event = finish_receive(&mut account, pending, true);
        assert!(event.is_some());
        assert_eq!(account.nonce_counter, step + 1);
    }
}

#[test]
fn nonce_account_walks_by_one() {
    let mut account = NonceAccount::new();
    assert_eq!(account.next_expected(), 0);
    assert!(account.check_and_reserve(0).is_ok());
    assert_eq!(
        account.check_and_reserve(1).err(),
        Some(BridgeError::InvalidNonce)
    );
    account.commit();
    assert_eq!(account.next_expected(), 1);
    assert_eq!(
        account.check_and_reserve(0).err(),
        Some(BridgeError::InvalidNonce)
    );
    assert!(account.check_and_reserve(1).is_ok());
}
