use solana_program::hash::hash;
use superior_randomness::{
    build_ed25519_verify_instruction, request, reveal_key, reveal_signed, seed, RequestAccountData,
    Request, Reveal, SbError, Seed, ED25519_PROGRAM_ID,
};

fn fresh_record() -> RequestAccountData {
    RequestAccountData {
        bump: 0,
        pubkey_hash: [0u8; 32],
        switchboard_request: [0u8; 32],
        seed: 0,
        blockhash: [0u8; 32],
        result: [0u8; 32],
        request_timestamp: 0,
        seed_timestamp: 0,
        reveal_timestamp: 0,
    }
}

fn request_ctx() -> Request {
    Request {
        payer: [11u8; 32],
        authority: [12u8; 32],
        program_id: [13u8; 32],
        req: [14u8; 32],
        switchboard_request: [15u8; 32],
    }
}

fn seed_ctx(rec: &RequestAccountData, recent: Vec<u8>) -> Seed {
    Seed {
        req: [14u8; 32],
        switchboard_function: [21u8; 32],
        switchboard_request: rec.switchboard_request,
        request_function: [21u8; 32],
        enclave_signer: [22u8; 32],
        signer_registered: true,
        recent_blockhashes: recent,
    }
}

fn recent_with_anchor(anchor: [u8; 32]) -> Vec<u8> {
    let mut v = vec![0u8; 8];
    v.extend_from_slice(&anchor);
    v.extend_from_slice(&[0u8; 16]);
    v
}

#[test]
fn test_request_creates_record() {
    let mut rec = fresh_record();
    let ctx = request_ctx();
    let keyhash = hash(&[5u8; 32]).to_bytes();
    let params = request(&ctx, &mut rec, keyhash, 100);
    assert_eq!(rec.pubkey_hash, keyhash);
    assert_eq!(rec.switchboard_request, ctx.switchboard_request);
    assert_eq!(rec.request_timestamp, 100);
    assert_eq!(rec.seed_timestamp, 0);
    assert_eq!(rec.reveal_timestamp, 0);
    assert!(params.starts_with(b"PID="));
    assert!(params.len() <= 512);
}

// The seed phase succeeds at most once: the second call always fails
// `RequestAlreadySeeded`, whatever value it carries.
#[test]
fn test_seed_once_then_already_seeded() {
    let mut rec = fresh_record();
    let ctx = request_ctx();
    request(&ctx, &mut rec, [1u8; 32], 100);
    let anchor = [42u8; 32];
    let sctx = seed_ctx(&rec, recent_with_anchor(anchor));
    let ev = seed(&sctx, &mut rec, 777, 200).unwrap();
    assert_eq!(ev.request, sctx.req);
    assert_eq!(ev.seed, 777);
    assert_eq!(rec.seed, 777);
    assert_eq!(rec.seed_timestamp, 200);
    assert_eq!(rec.blockhash, anchor);
    let again = seed(&sctx, &mut rec, 888, 300);
    assert!(matches!(again, Err(SbError::RequestAlreadySeeded)));
    let other = Seed { signer_registered: false, ..seed_ctx(&rec, recent_with_anchor(anchor)) };
    let third = seed(&other, &mut rec, 999, 400);
    assert!(matches!(third, Err(SbError::RequestAlreadySeeded)));
    assert_eq!(rec.seed, 777);
}

#[test]
fn test_seed_unregistered_signer_fails() {
    let mut rec = fresh_record();
    request(&request_ctx(), &mut rec, [1u8; 32], 100);
    let mut sctx = seed_ctx(&rec, recent_with_anchor([1u8; 32]));
    sctx.signer_registered = false;
    assert!(matches!(seed(&sctx, &mut rec, 7, 200), Err(SbError::InvalidAuthorization)));
    assert_eq!(rec.seed_timestamp, 0);
}

#[test]
fn test_seed_wrong_linkage_fails() {
    let mut rec = fresh_record();
    request(&request_ctx(), &mut rec, [1u8; 32], 100);
    let mut sctx = seed_ctx(&rec, recent_with_anchor([1u8; 32]));
    sctx.switchboard_request = [99u8; 32];
    assert!(matches!(seed(&sctx, &mut rec, 7, 200), Err(SbError::InvalidAuthorization)));
    let mut sctx2 = seed_ctx(&rec, recent_with_anchor([1u8; 32]));
    sctx2.request_function = [99u8; 32];
    assert!(matches!(seed(&sctx2, &mut rec, 7, 200), Err(SbError::InvalidAuthorization)));
}

fn expected_variant_a(secret: &[u8; 32], anchor: &[u8; 32], seed_value: u32) -> [u8; 32] {
    let mut buf = Vec::new();
    buf.extend_from_slice(secret);
    buf.extend_from_slice(anchor);
    buf.extend_from_slice(&seed_value.to_le_bytes());
    hash(&buf).to_bytes()
}

// The full Variant A lifecycle: request at T0, seed(42) at T1 captures the
// anchor, and revealing the committed secret at T2 yields exactly
// hash(secret ++ anchor ++ le(42)). Repeating the sequence with identical
// inputs reproduces the identical result; changing the anchor alone changes
// it.
#[test]
fn test_reveal_key_end_to_end() {
    let secret = [7u8; 32];
    let anchor = [42u8; 32];
    let run = |anchor: [u8; 32]| -> [u8; 32] {
        let mut rec = fresh_record();
        let ctx = request_ctx();
        request(&ctx, &mut rec, hash(&secret).to_bytes(), 100);
        let sctx = seed_ctx(&rec, recent_with_anchor(anchor));
        seed(&sctx, &mut rec, 42, 200).unwrap();
        let rctx = Reveal { req: ctx.req, first_instruction: None };
        reveal_key(&rctx, &mut rec, secret, 300).unwrap();
        assert_eq!(rec.reveal_timestamp, 300);
        rec.result
    };
    let r1 = run(anchor);
    assert_eq!(r1, expected_variant_a(&secret, &anchor, 42));
    let r2 = run(anchor);
    assert_eq!(r1, r2);
    let r3 = run([43u8; 32]);
    assert_ne!(r1, r3);
}

// The derivation is sensitive to each input: changing secret, anchor, or
// seed alone changes the outcome.
#[test]
fn test_reveal_key_sensitivity() {
    let base = expected_variant_a(&[7u8; 32], &[42u8; 32], 42);
    assert_ne!(base, expected_variant_a(&[8u8; 32], &[42u8; 32], 42));
    assert_ne!(base, expected_variant_a(&[7u8; 32], &[43u8; 32], 42));
    assert_ne!(base, expected_variant_a(&[7u8; 32], &[42u8; 32], 43));
}

#[test]
fn test_reveal_key_wrong_secret_fails() {
    let mut rec = fresh_record();
    let ctx = request_ctx();
    request(&ctx, &mut rec, hash(&[7u8; 32]).to_bytes(), 100);
    let rctx = Reveal { req: ctx.req, first_instruction: None };
    let r = reveal_key(&rctx, &mut rec, [8u8; 32], 300);
    assert!(matches!(r, Err(SbError::KeyVerifyFailed)));
    assert_eq!(rec.reveal_timestamp, 0);
    assert_eq!(rec.result, [0u8; 32]);
}

// The reveal phase succeeds at most once, under either strategy.
#[test]
fn test_reveal_twice_already_revealed() {
    let secret = [7u8; 32];
    let mut rec = fresh_record();
    let ctx = request_ctx();
    request(&ctx, &mut rec, hash(&secret).to_bytes(), 100);
    let sctx = seed_ctx(&rec, recent_with_anchor([1u8; 32]));
    seed(&sctx, &mut rec, 5, 200).unwrap();
    let rctx = Reveal { req: ctx.req, first_instruction: None };
    reveal_key(&rctx, &mut rec, secret, 300).unwrap();
    let again = reveal_key(&rctx, &mut rec, secret, 400);
    assert!(matches!(again, Err(SbError::RequestAlreadyRevealed)));
    let signed = reveal_signed(&rctx, &mut rec, [9u8; 64], 400);
    assert!(matches!(signed, Err(SbError::RequestAlreadyRevealed)));
}

// The full Variant B flow: with the matching companion instruction in the
// transaction, reveal succeeds and the outcome is hash(signature).
#[test]
fn test_reveal_signed_end_to_end() {
    let mut rec = fresh_record();
    let ctx = request_ctx();
    request(&ctx, &mut rec, [0u8; 32], 100);
    let sctx = seed_ctx(&rec, recent_with_anchor([1u8; 32]));
    seed(&sctx, &mut rec, 42, 200).unwrap();
    let signature = [9u8; 64];
    let companion =
        build_ed25519_verify_instruction(&ctx.req, &42u32.to_le_bytes().to_vec(), &signature);
    assert_eq!(companion.program_id, solana_program::ed25519_program::ID.to_bytes());
    assert_eq!(companion.program_id, ED25519_PROGRAM_ID);
    let rctx = Reveal { req: ctx.req, first_instruction: Some(companion) };
    reveal_signed(&rctx, &mut rec, signature, 300).unwrap();
    assert_eq!(rec.result, hash(&signature).to_bytes());
    assert_eq!(rec.reveal_timestamp, 300);
}

// Any altered byte in the companion's message, key, or signature — or its
// absence — fails `SigVerifyFailed`.
#[test]
fn test_reveal_signed_mismatch_fails() {
    let signature = [9u8; 64];
    let setup = || {
        let mut rec = fresh_record();
        let ctx = request_ctx();
        request(&ctx, &mut rec, [0u8; 32], 100);
        let sctx = seed_ctx(&rec, recent_with_anchor([1u8; 32]));
        seed(&sctx, &mut rec, 42, 200).unwrap();
        (rec, ctx)
    };

    // absent companion
    let (mut rec, ctx) = setup();
    let rctx = Reveal { req: ctx.req, first_instruction: None };
    assert!(matches!(reveal_signed(&rctx, &mut rec, signature, 300), Err(SbError::SigVerifyFailed)));

    // message over the wrong seed
    let (mut rec, ctx) = setup();
    let wrong_msg =
        build_ed25519_verify_instruction(&ctx.req, &43u32.to_le_bytes().to_vec(), &signature);
    let rctx = Reveal { req: ctx.req, first_instruction: Some(wrong_msg) };
    assert!(matches!(reveal_signed(&rctx, &mut rec, signature, 300), Err(SbError::SigVerifyFailed)));

    // wrong public key
    let (mut rec, ctx) = setup();
    let wrong_key =
        build_ed25519_verify_instruction(&[1u8; 32], &42u32.to_le_bytes().to_vec(), &signature);
    let rctx = Reveal { req: ctx.req, first_instruction: Some(wrong_key) };
    assert!(matches!(reveal_signed(&rctx, &mut rec, signature, 300), Err(SbError::SigVerifyFailed)));

    // one altered signature byte
    let (mut rec, ctx) = setup();
    let mut other_sig = signature;
    other_sig[0] ^= 1;
    let altered =
        build_ed25519_verify_instruction(&ctx.req, &42u32.to_le_bytes().to_vec(), &other_sig);
    let rctx = Reveal { req: ctx.req, first_instruction: Some(altered) };
    assert!(matches!(reveal_signed(&rctx, &mut rec, signature, 300), Err(SbError::SigVerifyFailed)));

    // one altered data byte in an otherwise matching companion
    let (mut rec, ctx) = setup();
    let mut tampered =
        build_ed25519_verify_instruction(&ctx.req, &42u32.to_le_bytes().to_vec(), &signature);
    tampered.data[20] ^= 1;
    let rctx = Reveal { req: ctx.req, first_instruction: Some(tampered) };
    assert!(matches!(reveal_signed(&rctx, &mut rec, signature, 300), Err(SbError::SigVerifyFailed)));
}
