use anchorkit::address::Address;
use anchorkit::contract::attestations::sort_attestations;
use anchorkit::contract::events::Event;
use anchorkit::contract::ledger::{AnchorKitContract, ContractError, Ledger};
use anchorkit::contract::types::{
    Attestation, AttestationFilter, AttestationInput, AttestationSortOrder, Bytes, CapacityConfig,
    RequestId,
};
use anchorkit::errors::ErrorCode;
use ed25519_dalek::{Signer, SigningKey};

fn generate(n: u8) -> Address {
    Address::Contract([n; 32])
}

fn code<T>(r: Result<T, ContractError>) -> Option<ErrorCode> {
    match r {
        Err(ContractError::Code(c)) => Some(c),
        _ => None,
    }
}

fn bytes(n: u8, len: usize) -> Bytes {
    Bytes::from_slice(vec![n; len].as_slice())
}

/// The public key of the attestor with the given seed.
fn key(seed: u8) -> [u8; 32] {
    SigningKey::from_bytes(&[seed; 32]).verifying_key().to_bytes()
}

/// What the attestor with the given seed signs.
fn sign(seed: u8, message: &Bytes) -> Bytes {
    Bytes::from_slice(&SigningKey::from_bytes(&[seed; 32]).sign(&message.data).to_bytes())
}

fn setup() -> (Ledger, Address) {
    let mut env = Ledger::new(1_000, 10);
    env.mock_all_auths();
    AnchorKitContract::initialize(&mut env, generate(1)).unwrap();
    AnchorKitContract::set_sep10_jwt_verifying_key(&mut env, generate(9), bytes(7, 32)).unwrap();
    let issuer = generate(2);
    AnchorKitContract::register_attestor(
        &mut env,
        issuer,
        "token".to_string(),
        generate(9),
        key(5),
        true,
    )
    .unwrap();
    (env, issuer)
}

fn submit(env: &mut Ledger, issuer: Address, hash: Bytes) -> Result<u64, ContractError> {
    submit_as(env, 5, issuer, hash)
}

fn submit_as(env: &mut Ledger, seed: u8, issuer: Address, hash: Bytes) -> Result<u64, ContractError> {
    let signature = sign(seed, &hash);
    AnchorKitContract::submit_attestation(env, issuer, generate(30), 500, hash, signature)
}

fn input(issuer: Address, n: u8) -> AttestationInput {
    AttestationInput {
        issuer,
        subject: generate(30),
        timestamp: 500,
        payload_hash: bytes(n, 32),
        signature: sign(5, &bytes(n, 32)),
    }
}

#[test]
fn an_accepted_attestation_reads_back() {
    let (mut env, issuer) = setup();
    let id = submit(&mut env, issuer, bytes(3, 32)).unwrap();
    let a = AnchorKitContract::get_attestation(&env, id).unwrap();
    assert_eq!((a.id, a.issuer, a.subject, a.timestamp), (id, issuer, generate(30), 500));
    assert_eq!(a.payload_hash.data, vec![3u8; 32]);
    assert_eq!(AnchorKitContract::get_attestation_by_hash(&env, issuer, bytes(3, 32)), Ok(id));
    assert_eq!(
        code(AnchorKitContract::get_attestation(&env, id + 1)),
        Some(ErrorCode::AttestationNotFound)
    );
    assert_eq!(
        code(AnchorKitContract::get_attestation_by_hash(&env, issuer, bytes(4, 32))),
        Some(ErrorCode::AttestationNotFound)
    );
}

#[test]
fn a_used_payload_is_a_replay() {
    let (mut env, issuer) = setup();
    submit(&mut env, issuer, bytes(3, 32)).unwrap();
    assert_eq!(code(submit(&mut env, issuer, bytes(3, 32))), Some(ErrorCode::ReplayAttack));
    assert!(!env.events.iter().any(|e| matches!(e, Event::ReplayDetected(_, _))));
    assert_eq!(AnchorKitContract::get_replay_count_for_id(&env, bytes(3, 32)), 0);
    AnchorKitContract::note_replay(&mut env, &issuer, &bytes(3, 32));
    assert!(matches!(env.events.last(), Some(Event::ReplayDetected(who, _)) if *who == issuer));
    assert_eq!(AnchorKitContract::get_replay_count_for_id(&env, bytes(3, 32)), 1);
    assert_eq!(AnchorKitContract::get_replay_count_for_id(&env, bytes(4, 32)), 0);
    assert_eq!(AnchorKitContract::get_replay_metrics(&env).total_detected, 1);
    assert_eq!(env.attestations.index.len(), 1);
    assert!(submit(&mut env, issuer, bytes(4, 32)).is_ok());
}

#[test]
fn submissions_are_checked() {
    let (mut env, issuer) = setup();
    assert_eq!(code(submit(&mut env, issuer, bytes(3, 33))), Some(ErrorCode::ValidationError));
    assert_eq!(
        code(submit(&mut env, generate(44), bytes(3, 32))),
        Some(ErrorCode::AttestorNotRegistered)
    );
    let subject = generate(30);
    assert_eq!(
        code(AnchorKitContract::submit_attestation(
            &mut env,
            issuer,
            subject,
            500,
            bytes(3, 32),
            bytes(1, 63)
        )),
        Some(ErrorCode::SignatureVerificationFailed)
    );
    assert_eq!(
        AnchorKitContract::submit_attestation(
            &mut env,
            issuer,
            subject,
            500,
            bytes(3, 32),
            bytes(1, 64)
        ),
        Err(ContractError::SignatureInvalid)
    );
    assert_eq!(
        code(AnchorKitContract::submit_attestation(
            &mut env,
            issuer,
            subject,
            0,
            bytes(3, 32),
            sign(5, &bytes(3, 32))
        )),
        Some(ErrorCode::InvalidTimestamp)
    );
    env.auth.all = false;
    assert_eq!(submit(&mut env, issuer, bytes(3, 32)), Err(ContractError::AuthRequired(issuer)));
    assert_eq!(env.attestations.index.len(), 0);
}

#[test]
fn a_batch_is_stored_whole_or_not_at_all() {
    let (mut env, issuer) = setup();
    AnchorKitContract::set_rate_limit_config(&mut env, generate(1), 1_000, 100).unwrap();
    let ids = AnchorKitContract::submit_attestation_batch(
        &mut env,
        issuer,
        &vec![input(issuer, 1), input(issuer, 2)],
    )
    .unwrap();
    assert_eq!(ids.len(), 2);
    assert_eq!(ids[1], ids[0] + 1);
    let stored = env.attestations.index.len();
    assert_eq!(
        code(AnchorKitContract::submit_attestation_batch(
            &mut env,
            issuer,
            &vec![input(issuer, 3), input(issuer, 1)]
        )),
        Some(ErrorCode::ReplayAttack)
    );
    assert_eq!(env.attestations.index.len(), stored);
    let many: Vec<AttestationInput> = (0..26).map(|i| input(issuer, 100 + i)).collect();
    assert_eq!(
        code(AnchorKitContract::submit_attestation_batch(&mut env, issuer, &many)),
        Some(ErrorCode::BatchSizeExceeded)
    );
    assert_eq!(code(submit(&mut env, issuer, bytes(2, 32))), Some(ErrorCode::ReplayAttack));
}

#[test]
fn attestations_can_ask_for_kyc() {
    let (mut env, issuer) = setup();
    let subject = generate(30);
    let attest = |env: &mut Ledger, n: u8| {
        AnchorKitContract::submit_attestation_kyc_check(
            env,
            issuer,
            subject,
            500,
            bytes(n, 32),
            sign(5, &bytes(n, 32)),
            true,
        )
    };
    assert_eq!(code(attest(&mut env, 1)), Some(ErrorCode::KycNotFound));
    AnchorKitContract::submit_kyc(&mut env, subject, bytes(8, 32), issuer).unwrap();
    assert_eq!(code(attest(&mut env, 1)), Some(ErrorCode::KycPending));
    AnchorKitContract::approve_kyc(&mut env, generate(1), subject).unwrap();
    assert!(attest(&mut env, 1).is_ok());
    env.clock.timestamp = 1_001 + 2_592_000;
    assert_eq!(code(attest(&mut env, 2)), Some(ErrorCode::KycExpired));
}

#[test]
fn a_session_refuses_a_payload_it_has_used() {
    let (mut env, issuer) = setup();
    let sid = AnchorKitContract::create_session(&mut env, issuer).unwrap();
    let attest = |env: &mut Ledger, sid: u64, n: u8| {
        AnchorKitContract::submit_attestation_with_session(
            env,
            sid,
            issuer,
            generate(30),
            500,
            bytes(n, 32),
            sign(5, &bytes(n, 32)),
        )
    };
    let id = attest(&mut env, sid, 1).unwrap();
    assert_eq!(AnchorKitContract::get_session_operation_count(&env, sid), 1);
    let logs = AnchorKitContract::get_session_audit_logs(&env, sid, 10);
    assert_eq!(logs.len(), 1);
    assert_eq!(logs[0].operation.result_data, id);
    assert_eq!(code(attest(&mut env, sid, 1)), Some(ErrorCode::ReplayAttack));
    AnchorKitContract::close_session(&mut env, sid, issuer).unwrap();
    assert_eq!(code(attest(&mut env, sid, 2)), Some(ErrorCode::SessionClosed));
    assert_eq!(code(attest(&mut env, sid + 1, 2)), Some(ErrorCode::SessionNotFound));
}

#[test]
fn pages_are_filtered() {
    let (mut env, issuer) = setup();
    for n in 0..5u8 {
        submit(&mut env, issuer, bytes(n, 32)).unwrap();
    }
    let page = AnchorKitContract::get_attestations_paginated(&env, 1, 2, None).unwrap();
    assert_eq!(page.records.len(), 2);
    let first = page.records[0].id;
    let all = AttestationFilter {
        issuer: Some(generate(77)),
        subject: None,
        from_timestamp: None,
        to_timestamp: None,
        min_id: None,
    };
    let page = AnchorKitContract::get_attestations_paginated(&env, 0, 10, Some(all)).unwrap();
    assert_eq!(page.records.len(), 0);
    let tail = AttestationFilter {
        issuer: Some(issuer),
        subject: None,
        from_timestamp: Some(500),
        to_timestamp: Some(500),
        min_id: Some(first),
    };
    let page = AnchorKitContract::get_attestations_paginated(&env, 0, 10, Some(tail)).unwrap();
    assert_eq!(page.records.len(), 4);
}

fn record(id: u64, timestamp: u64) -> Attestation {
    Attestation {
        id,
        issuer: generate(2),
        subject: generate(3),
        timestamp,
        payload_hash: bytes(1, 32),
        signature: bytes(1, 64),
        schema_version: 1,
    }
}

#[test]
fn attestations_sort_by_identifier_or_time() {
    let records = vec![record(2, 10), record(1, 30), record(3, 20)];
    let ids = |order| sort_attestations(&records, order).iter().map(|a| a.id).collect::<Vec<u64>>();
    assert_eq!(ids(AttestationSortOrder::IdAsc), vec![1, 2, 3]);
    assert_eq!(ids(AttestationSortOrder::IdDesc), vec![3, 2, 1]);
    assert_eq!(ids(AttestationSortOrder::TimestampAsc), vec![2, 3, 1]);
    assert_eq!(ids(AttestationSortOrder::TimestampDesc), vec![1, 3, 2]);
}

#[test]
fn revoked_attestors_are_refused_until_reactivated() {
    let (mut env, issuer) = setup();
    AnchorKitContract::revoke_attestor(&mut env, issuer).unwrap();
    assert!(!AnchorKitContract::is_attestor(&env, issuer));
    assert_eq!(code(submit(&mut env, issuer, bytes(3, 32))), Some(ErrorCode::AttestorRevoked));
    let info = AnchorKitContract::get_attestor_revocation_info(&env, issuer).unwrap();
    assert_eq!((info.revoked_at, info.public_key, info.reactivated), (1_000, key(5), false));
    AnchorKitContract::reactivate_attestor(&mut env, issuer).unwrap();
    assert!(AnchorKitContract::is_attestor(&env, issuer));
    assert!(submit(&mut env, issuer, bytes(3, 32)).is_ok());
}

#[test]
fn registration_is_checked() {
    let (mut env, issuer) = setup();
    let register = |env: &mut Ledger, who: Address, token: &str, verified: bool| {
        AnchorKitContract::register_attestor(
            env,
            who,
            token.to_string(),
            generate(9),
            [6u8; 32],
            verified,
        )
    };
    assert_eq!(code(register(&mut env, generate(3), "", true)), Some(ErrorCode::ValidationError));
    assert_eq!(code(register(&mut env, generate(3), "t", false)), Some(ErrorCode::InvalidSep10Token));
    assert_eq!(code(register(&mut env, issuer, "t", true)), Some(ErrorCode::AttestorAlreadyRegistered));
    let mut config = AnchorKitContract::get_capacity_config(&env);
    config.max_attestors = 1;
    AnchorKitContract::set_capacity_config(&mut env, config).unwrap();
    assert_eq!(
        code(register(&mut env, generate(3), "t", true)),
        Some(ErrorCode::AttestorCapacityExceeded)
    );
}

#[test]
fn profiles_hold_endpoint_and_webhook() {
    let (mut env, issuer) = setup();
    assert_eq!(AnchorKitContract::get_endpoint(&env, issuer), Ok(String::new()));
    AnchorKitContract::set_endpoint(&mut env, issuer, "https://a.example".to_string(), true).unwrap();
    AnchorKitContract::register_webhook(&mut env, issuer, "https://b.example".to_string(), true).unwrap();
    assert_eq!(AnchorKitContract::get_endpoint(&env, issuer), Ok("https://a.example".to_string()));
    assert_eq!(AnchorKitContract::get_webhook_url(&env, issuer), Ok("https://b.example".to_string()));
    assert_eq!(
        code(AnchorKitContract::set_endpoint(&mut env, issuer, "x".to_string(), false)),
        Some(ErrorCode::InvalidEndpointFormat)
    );
}

#[test]
fn token_keys_rotate() {
    let (mut env, _) = setup();
    AnchorKitContract::rotate_sep10_key(&mut env, generate(9), bytes(8, 32)).unwrap();
    assert_eq!(AnchorKitContract::get_sep10_key(&env, generate(9)).unwrap().data, vec![8u8; 32]);
    assert!(AnchorKitContract::set_sep10_jwt_verifying_key(&mut env, generate(9), bytes(8, 31)).is_err());
    assert!(AnchorKitContract::set_jwt_max_len(&mut env, 2_047).is_err());
    AnchorKitContract::set_jwt_max_len(&mut env, 4_096).unwrap();
    assert_eq!(AnchorKitContract::get_jwt_max_len(&env), 4_096);
    assert!(AnchorKitContract::set_jwt_skew(&mut env, 301).is_err());
    AnchorKitContract::set_jwt_skew(&mut env, 300).unwrap();
    assert_eq!(AnchorKitContract::get_jwt_skew(&env), 300);
}

#[test]
fn the_list_follows_the_register() {
    let (mut env, first) = setup();
    let second = generate(3);
    AnchorKitContract::register_attestor(
        &mut env,
        second,
        "token".to_string(),
        generate(9),
        [6u8; 32],
        true,
    )
    .unwrap();
    assert_eq!(AnchorKitContract::list_registered_attestors(&env), &vec![first, second]);
    AnchorKitContract::revoke_attestor(&mut env, first).unwrap();
    assert_eq!(AnchorKitContract::list_registered_attestors(&env), &vec![second]);
    assert_eq!(AnchorKitContract::get_attestor_count(&env), 1);
    AnchorKitContract::reactivate_attestor(&mut env, first).unwrap();
    assert_eq!(AnchorKitContract::list_registered_attestors(&env), &vec![second, first]);
    assert_eq!(AnchorKitContract::get_attestor_count(&env), 2);
    assert!(AnchorKitContract::get_attestor_revocation_info(&env, first).unwrap().reactivated);
}

#[test]
fn identifiers_come_in_ascending_order() {
    let (mut env, issuer) = setup();
    submit(&mut env, issuer, bytes(1, 32)).unwrap();
    AnchorKitContract::set_rate_limit_config(&mut env, generate(1), 1_000, 100).unwrap();
    AnchorKitContract::submit_attestation_batch(
        &mut env,
        issuer,
        &vec![input(issuer, 2), input(issuer, 3)],
    )
    .unwrap();
    submit(&mut env, issuer, bytes(4, 32)).unwrap();
    let first = env.attestations.index[0];
    assert_eq!(env.attestations.index, vec![first, first + 1, first + 2, first + 3]);
}

#[test]
fn sessions_register_and_revoke() {
    let (mut env, _) = setup();
    let admin = generate(1);
    let sid = AnchorKitContract::create_session(&mut env, admin).unwrap();
    let who = generate(12);
    AnchorKitContract::register_attestor_with_session(&mut env, admin, sid, who, [8; 32]).unwrap();
    assert!(AnchorKitContract::is_attestor(&env, who));
    AnchorKitContract::revoke_attestor_with_session(&mut env, admin, sid, who).unwrap();
    assert!(!AnchorKitContract::is_attestor(&env, who));
    assert_eq!(AnchorKitContract::get_session_operation_count(&env, sid), 2);
    let logs = AnchorKitContract::get_session_logs_paginated(&env, sid, 0, 10);
    assert_eq!(
        logs.iter().map(|l| l.operation.operation_type.as_str()).collect::<Vec<&str>>(),
        vec!["register", "revoke"]
    );
    assert_eq!(
        code(AnchorKitContract::register_attestor_with_session(
            &mut env,
            generate(50),
            sid,
            who,
            [8; 32]
        )),
        Some(ErrorCode::Unauthorized)
    );
}

#[test]
fn signatures_verify_over_the_payload_hash_under_the_key_of_the_issuer() {
    let (mut env, issuer) = setup();
    let hash = bytes(3, 32);
    let good = sign(5, &hash);
    let mut bent = sign(5, &hash);
    bent.data[10] ^= 1;
    // Of another payload, by another key, changed, and not a signature at all.
    for bad in [sign(5, &bytes(4, 32)), sign(6, &hash), bent, bytes(1, 64), bytes(255, 64)] {
        assert_eq!(
            AnchorKitContract::submit_attestation(
                &mut env,
                issuer,
                generate(30),
                500,
                hash.copy(),
                bad
            ),
            Err(ContractError::SignatureInvalid)
        );
    }
    assert_eq!(env.attestations.index.len(), 0);
    let id = AnchorKitContract::submit_attestation(
        &mut env,
        issuer,
        generate(30),
        500,
        hash,
        good.copy(),
    )
    .unwrap();
    assert_eq!(AnchorKitContract::get_attestation(&env, id).unwrap().signature, good);
}

#[test]
fn every_way_to_submit_verifies_the_signature() {
    let (mut env, issuer) = setup();
    AnchorKitContract::set_rate_limit_config(&mut env, generate(1), 100, 5).unwrap();
    let sid = AnchorKitContract::create_session(&mut env, issuer).unwrap();
    let subject = generate(30);
    let hash = bytes(3, 32);
    let foreign = sign(6, &hash);
    assert_eq!(
        AnchorKitContract::submit_attestation_kyc_check(
            &mut env,
            issuer,
            subject,
            500,
            hash.copy(),
            foreign.copy(),
            false
        ),
        Err(ContractError::SignatureInvalid)
    );
    assert_eq!(
        AnchorKitContract::submit_attestation_with_session(
            &mut env,
            sid,
            issuer,
            subject,
            500,
            hash.copy(),
            foreign.copy()
        ),
        Err(ContractError::SignatureInvalid)
    );
    let request = RequestId { id: bytes(6, 16), created_at: 1_000 };
    assert_eq!(
        AnchorKitContract::submit_with_request_id(
            &mut env,
            &request,
            issuer,
            subject,
            500,
            hash.copy(),
            foreign.copy()
        ),
        Err(ContractError::SignatureInvalid)
    );
    let mut bad = input(issuer, 3);
    bad.signature = foreign;
    assert_eq!(
        AnchorKitContract::submit_attestation_batch(
            &mut env,
            issuer,
            &vec![input(issuer, 4), bad]
        ),
        Err(ContractError::SignatureInvalid)
    );
    assert_eq!(env.attestations.index.len(), 0);
}

#[test]
fn a_known_signature_verifies() {
    // A key, an empty message and its signature, as they are published with the
    // definition of the scheme.
    let (mut env, _) = setup();
    let issuer = generate(3);
    let public_key: [u8; 32] = [
        0xd7, 0x5a, 0x98, 0x01, 0x82, 0xb1, 0x0a, 0xb7, 0xd5, 0x4b, 0xfe, 0xd3, 0xc9, 0x64, 0x07, 0x3a,
        0x0e, 0xe1, 0x72, 0xf3, 0xda, 0xa6, 0x23, 0x25, 0xaf, 0x02, 0x1a, 0x68, 0xf7, 0x07, 0x51, 0x1a,
    ];
    let signature: [u8; 64] = [
        0xe5, 0x56, 0x43, 0x00, 0xc3, 0x60, 0xac, 0x72, 0x90, 0x86, 0xe2, 0xcc, 0x80, 0x6e, 0x82, 0x8a,
        0x84, 0x87, 0x7f, 0x1e, 0xb8, 0xe5, 0xd9, 0x74, 0xd8, 0x73, 0xe0, 0x65, 0x22, 0x49, 0x01, 0x55,
        0x5f, 0xb8, 0x82, 0x15, 0x90, 0xa3, 0x3b, 0xac, 0xc6, 0x1e, 0x39, 0x70, 0x1c, 0xf9, 0xb4, 0x6b,
        0xd2, 0x5b, 0xf5, 0xf0, 0x59, 0x5b, 0xbe, 0x24, 0x65, 0x51, 0x41, 0x43, 0x8e, 0x7a, 0x10, 0x0b,
    ];
    AnchorKitContract::register_attestor(
        &mut env,
        issuer,
        "token".to_string(),
        generate(9),
        public_key,
        true,
    )
    .unwrap();
    assert!(AnchorKitContract::submit_attestation(
        &mut env,
        issuer,
        generate(30),
        500,
        Bytes::new(),
        Bytes::from_slice(&signature)
    )
    .is_ok());
}

#[test]
fn a_judged_signature_is_refused_for_its_first_fault() {
    let (env, issuer) = setup();
    let judge = |who: Address, len: usize, verified: bool| {
        AnchorKitContract::judge_signature(&env, &who, &bytes(1, len), verified)
    };
    assert_eq!(
        judge(generate(44), 63, false),
        Err(ContractError::Code(ErrorCode::UnauthorizedAttestor))
    );
    assert_eq!(
        judge(issuer, 63, false),
        Err(ContractError::Code(ErrorCode::SignatureVerificationFailed))
    );
    assert_eq!(judge(issuer, 64, false), Err(ContractError::SignatureInvalid));
    assert_eq!(judge(issuer, 64, true), Ok(()));
}

#[test]
fn tokens_are_checked_under_the_key_of_their_issuer() {
    let (env, _) = setup();
    let (key, max_len, skew) = AnchorKitContract::token_to_check(&env, generate(9)).unwrap();
    assert_eq!((key.data.clone(), max_len, skew), (vec![7u8; 32], 2_048, 60));
    assert!(AnchorKitContract::token_to_check(&env, generate(8)).is_none());
    let (key, max_len, skew, subject) =
        AnchorKitContract::token_to_check_for_subject(&env, generate(9), generate(0)).unwrap();
    assert_eq!((key.data.clone(), max_len, skew), (vec![7u8; 32], 2_048, 60));
    assert_eq!(subject, "CAAAAAAAAAAAAAAAAAAAAAAAAAAAAAAAAAAAAAAAAAAAAAAAAAAABSC4");
    assert!(AnchorKitContract::token_to_check_for_subject(&env, generate(8), generate(0)).is_none());
    assert_eq!(AnchorKitContract::verify_sep10_token_for_subject(&env, generate(9), true), Ok(()));
    assert_eq!(
        code(AnchorKitContract::verify_sep10_token_for_subject(&env, generate(9), false)),
        Some(ErrorCode::InvalidSep10Token)
    );
    assert_eq!(
        code(AnchorKitContract::verify_sep10_token_for_subject(&env, generate(8), true)),
        Some(ErrorCode::InvalidSep10Token)
    );
}

#[test]
fn submissions_are_limited_per_window() {
    let (mut env, issuer) = setup();
    AnchorKitContract::set_rate_limit_config(&mut env, generate(1), 2, 5).unwrap();
    submit(&mut env, issuer, bytes(1, 32)).unwrap();
    submit(&mut env, issuer, bytes(2, 32)).unwrap();
    assert_eq!(code(submit(&mut env, issuer, bytes(3, 32))), Some(ErrorCode::RateLimitExceeded));
    assert!(!matches!(env.events.last(), Some(Event::RateLimitHit(_))));
    AnchorKitContract::note_limit_hit(&mut env, &issuer);
    assert!(matches!(env.events.last(), Some(Event::RateLimitHit(e)) if e.attestor == issuer));
    env.clock.sequence = 15;
    submit(&mut env, issuer, bytes(3, 32)).unwrap();
    // A batch of one takes five places.
    assert_eq!(
        code(AnchorKitContract::submit_attestation_batch(&mut env, issuer, &vec![input(issuer, 9)])),
        Some(ErrorCode::RateLimitExceeded)
    );
}

#[test]
fn sessions_hold_a_hundred_operations() {
    let (mut env, _) = setup();
    let admin = generate(1);
    let sid = AnchorKitContract::create_session(&mut env, admin).unwrap();
    let who = generate(12);
    for _ in 0..50 {
        AnchorKitContract::register_attestor_with_session(&mut env, admin, sid, who, [8; 32]).unwrap();
        AnchorKitContract::revoke_attestor_with_session(&mut env, admin, sid, who).unwrap();
    }
    assert_eq!(
        code(AnchorKitContract::register_attestor_with_session(&mut env, admin, sid, who, [8; 32])),
        Some(ErrorCode::SessionOperationLimitExceeded)
    );
    assert_eq!(AnchorKitContract::get_session_state(&env, sid), Ok(1));
    AnchorKitContract::settle_session(&mut env, sid);
    assert_eq!(AnchorKitContract::get_session_state(&env, sid), Ok(2));
    assert_eq!(
        code(AnchorKitContract::register_attestor_with_session(&mut env, admin, sid, who, [8; 32])),
        Some(ErrorCode::SessionOperationLimitExceeded)
    );
}

#[test]
fn sessions_count_and_record_like_the_register() {
    let (mut env, issuer) = setup();
    let admin = generate(1);
    let sid = AnchorKitContract::create_session(&mut env, admin).unwrap();
    let who = generate(12);
    assert_eq!(AnchorKitContract::get_attestor_count(&env), 1);
    AnchorKitContract::register_attestor_with_session(&mut env, admin, sid, who, key(8)).unwrap();
    assert_eq!(AnchorKitContract::get_attestor_count(&env), 2);
    assert_eq!(env.attestors.list, vec![issuer, who]);
    AnchorKitContract::revoke_attestor_with_session(&mut env, admin, sid, who).unwrap();
    assert_eq!(AnchorKitContract::get_attestor_count(&env), 1);
    assert_eq!(env.attestors.list, vec![issuer]);
    let record = AnchorKitContract::get_attestor_revocation_info(&env, who).unwrap();
    assert_eq!((record.public_key, record.revoked_by, record.reactivated), (key(8), admin, false));
    assert_eq!(code(submit_as(&mut env, 8, who, bytes(3, 32))), Some(ErrorCode::AttestorRevoked));
    // It is restored from that record.
    AnchorKitContract::reactivate_attestor(&mut env, who).unwrap();
    assert!(AnchorKitContract::is_attestor(&env, who));
    assert_eq!(AnchorKitContract::get_attestor_count(&env), 2);
    assert!(submit_as(&mut env, 8, who, bytes(3, 32)).is_ok());
}

#[test]
fn every_revocation_is_announced() {
    let (mut env, issuer) = setup();
    let removed = |env: &Ledger| {
        env.events.iter().filter(|e| matches!(e, Event::AttestorRemoved(_))).count()
    };
    AnchorKitContract::revoke_attestor(&mut env, issuer).unwrap();
    assert_eq!(removed(&env), 1);
    // Registered again rather than restored, and revoked once more.
    AnchorKitContract::register_attestor(&mut env, issuer, "t".to_string(), generate(9), [6; 32], true)
        .unwrap();
    AnchorKitContract::revoke_attestor(&mut env, issuer).unwrap();
    assert_eq!(removed(&env), 2);
    assert_eq!(AnchorKitContract::get_attestor_count(&env), 0);
    assert!(env.attestors.list.is_empty());
}

#[test]
fn revoking_always_takes_the_address_off_the_list() {
    let (mut env, issuer) = setup();
    env.attestors.count = 0;
    AnchorKitContract::revoke_attestor(&mut env, issuer).unwrap();
    assert!(env.attestors.list.is_empty());
    assert_eq!(AnchorKitContract::get_attestor_count(&env), 0);
}

#[test]
fn refused_calls_change_nothing() {
    let (mut env, issuer) = setup();
    let admin = generate(1);
    let logged = env.admin_log.len();
    let events = env.events.len();
    assert_eq!(
        code(AnchorKitContract::revoke_attestor(&mut env, generate(44))),
        Some(ErrorCode::AttestorNotRegistered)
    );
    assert_eq!((env.admin_log.len(), env.events.len()), (logged, events));
    // A batch with a bad entry takes no places of the window.
    let mut bad = input(issuer, 4);
    bad.timestamp = 0;
    assert_eq!(
        code(AnchorKitContract::submit_attestation_batch(
            &mut env,
            issuer,
            &vec![input(issuer, 3), bad]
        )),
        Some(ErrorCode::InvalidTimestamp)
    );
    assert!(env.rates.states.get(&issuer).is_none());
    assert_eq!(env.attestations.index.len(), 0);
    // A submission in a session that is refused leaves the session as it was.
    let sid = AnchorKitContract::create_session(&mut env, admin).unwrap();
    let events = env.events.len();
    for (timestamp, refusal) in [(0, ErrorCode::InvalidTimestamp), (500, ErrorCode::AttestorNotRegistered)] {
        let who = if timestamp == 0 { issuer } else { generate(44) };
        assert_eq!(
            code(AnchorKitContract::submit_attestation_with_session(
                &mut env,
                sid,
                who,
                generate(30),
                timestamp,
                bytes(3, 32),
                sign(5, &bytes(3, 32))
            )),
            Some(refusal)
        );
    }
    assert!(env.rates.states.get(&issuer).is_none());
    assert_eq!(AnchorKitContract::get_session_state(&env, sid), Ok(0));
    assert_eq!(env.events.len(), events);
    env.clock.timestamp = 1_000_000;
    assert_eq!(
        code(AnchorKitContract::close_session(&mut env, sid, admin)),
        Some(ErrorCode::SessionExpired)
    );
    assert_eq!(env.sessions.records.get(&sid).unwrap().state, 0);
    assert_eq!(env.events.len(), events);
    AnchorKitContract::settle_session(&mut env, sid);
    assert!(matches!(env.events.last(), Some(Event::SessionExpired(e)) if e.session_id == sid));
    // Settling once more announces nothing.
    AnchorKitContract::settle_session(&mut env, sid);
    assert_eq!(env.events.len(), events + 1);
}

#[test]
fn a_batch_is_held_against_what_was_stored_before_it() {
    let (mut env, issuer) = setup();
    AnchorKitContract::set_rate_limit_config(&mut env, generate(1), 100, 5).unwrap();
    let ids = AnchorKitContract::submit_attestation_batch(
        &mut env,
        issuer,
        &vec![input(issuer, 3), input(issuer, 4), input(issuer, 3)],
    )
    .unwrap();
    assert_eq!(env.attestations.index, ids);
    // A payload reads back by the last entry that holds it.
    assert_eq!(AnchorKitContract::get_attestation_by_hash(&env, issuer, bytes(3, 32)), Ok(ids[2]));
    assert_eq!(AnchorKitContract::get_attestation_by_hash(&env, issuer, bytes(4, 32)), Ok(ids[1]));
    assert_eq!(
        code(AnchorKitContract::submit_attestation_batch(&mut env, issuer, &vec![input(issuer, 3)])),
        Some(ErrorCode::ReplayAttack)
    );
}

#[test]
fn the_register_has_a_capacity_in_sessions_too() {
    let (mut env, issuer) = setup();
    let admin = generate(1);
    let sid = AnchorKitContract::create_session(&mut env, admin).unwrap();
    AnchorKitContract::set_capacity_config(
        &mut env,
        CapacityConfig { max_attestors: 1, max_cache_entries: 10 },
    )
    .unwrap();
    assert_eq!(
        code(AnchorKitContract::register_attestor_with_session(
            &mut env,
            admin,
            sid,
            generate(12),
            [8; 32]
        )),
        Some(ErrorCode::AttestorCapacityExceeded)
    );
    AnchorKitContract::revoke_attestor(&mut env, issuer).unwrap();
    AnchorKitContract::register_attestor_with_session(&mut env, admin, sid, generate(12), [8; 32])
        .unwrap();
    assert_eq!(
        code(AnchorKitContract::reactivate_attestor(&mut env, issuer)),
        Some(ErrorCode::AttestorCapacityExceeded)
    );
    assert_eq!(AnchorKitContract::get_attestor_count(&env), 1);
}
