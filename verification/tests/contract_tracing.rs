use anchorkit::address::Address;
use anchorkit::contract::keys::{storage_key, AddressRecord, GlobalRecord, NumberedRecord, StorageKey};
use anchorkit::contract::ledger::{AnchorKitContract, ContractError, Ledger};
use anchorkit::contract::types::{AdminCapability, AdminRole, Bytes, RequestId};
use anchorkit::deterministic_hash::make_storage_key;
use anchorkit::errors::ErrorCode;
use ed25519_dalek::{Signer, SigningKey};
use soroban_sdk::xdr::ToXdr;
use soroban_sdk::Env;

fn generate(n: u8) -> Address {
    Address::Contract([n; 32])
}

fn code<T>(r: Result<T, ContractError>) -> Option<ErrorCode> {
    match r {
        Err(ContractError::Code(c)) => Some(c),
        _ => None,
    }
}

fn bytes(n: u8, len: usize) -> Bytes {
    Bytes::from_slice(vec![n; len].as_slice())
}

fn request(n: u8) -> RequestId {
    RequestId { id: bytes(n, 16), created_at: 1_000 }
}

/// The public key of the attestor.
fn key() -> [u8; 32] {
    SigningKey::from_bytes(&[5; 32]).verifying_key().to_bytes()
}

/// What the attestor signs.
fn sign(message: &Bytes) -> Bytes {
    Bytes::from_slice(&SigningKey::from_bytes(&[5; 32]).sign(&message.data).to_bytes())
}

fn setup() -> (Ledger, Address) {
    let mut env = Ledger::new(1_000, 10);
    env.mock_all_auths();
    AnchorKitContract::initialize(&mut env, generate(1)).unwrap();
    AnchorKitContract::set_sep10_jwt_verifying_key(&mut env, generate(9), bytes(7, 32)).unwrap();
    let issuer = generate(2);
    AnchorKitContract::register_attestor(&mut env, issuer, "t".to_string(), generate(9), key(), true)
        .unwrap();
    AnchorKitContract::configure_services(&mut env, issuer, vec![3]).unwrap();
    (env, issuer)
}

fn submit(env: &mut Ledger, n: u8, issuer: Address) -> Result<u64, ContractError> {
    AnchorKitContract::submit_with_request_id(
        env,
        &request(n),
        issuer,
        generate(30),
        500,
        bytes(n, 32),
        sign(&bytes(n, 32)),
    )
}

#[test]
fn request_identifiers_hash_time_ledger_and_counter() {
    let host = Env::default();
    let mut env = Ledger::new(1_000, 10);
    let first = AnchorKitContract::generate_request_id(&mut env);
    let mut input = soroban_sdk::Bytes::new(&host);
    input.extend_from_array(&1_000u64.to_be_bytes());
    input.extend_from_array(&10u32.to_be_bytes());
    input.extend_from_array(&0u64.to_be_bytes());
    let digest = host.crypto().sha256(&input).to_array();
    assert_eq!(first.id.data, digest[..16].to_vec());
    assert_eq!(first.created_at, 1_000);
    let second = AnchorKitContract::generate_request_id(&mut env);
    assert_ne!(first.id, second.id);
    assert_eq!(env.tracing.request_counter, 2);
}

#[test]
fn child_identifiers_differ_by_nonce() {
    let env = Ledger::new(1_000, 10);
    let root = bytes(4, 16);
    let a = AnchorKitContract::generate_child_request_id(&env, &root, 1);
    let b = AnchorKitContract::generate_child_request_id(&env, &root, 2);
    assert_ne!(a.id, b.id);
    assert_eq!(a.id.data.len(), 16);
}

#[test]
fn traces_hold_the_root_and_its_children() {
    let (mut env, issuer) = setup();
    submit(&mut env, 1, issuer).unwrap();
    let span = AnchorKitContract::get_tracing_span(&env, bytes(1, 16)).unwrap();
    assert_eq!(span.actor, issuer);
    for n in [2u8, 3] {
        AnchorKitContract::propagate_span(&mut env, &request(1), &request(n), format!("op{}", n), issuer)
            .unwrap();
    }
    let trace = AnchorKitContract::get_trace(&env, &bytes(1, 16));
    assert_eq!(trace.iter().map(|s| s.span_index).collect::<Vec<u32>>(), vec![0, 1, 2]);
    assert_eq!(trace[2].operation, "op3");
    assert_eq!(
        code(AnchorKitContract::propagate_span(
            &mut env,
            &request(1),
            &request(1),
            "x".to_string(),
            issuer
        )),
        Some(ErrorCode::ValidationError)
    );
    assert_eq!(
        code(AnchorKitContract::propagate_span(
            &mut env,
            &request(8),
            &request(9),
            "x".to_string(),
            issuer
        )),
        Some(ErrorCode::ValidationError)
    );
    // No index is left under the root.
    env.tracing.roots.get_mut(&bytes(1, 16)).unwrap().next_span_index = u32::MAX;
    assert_eq!(
        code(AnchorKitContract::propagate_span(
            &mut env,
            &request(1),
            &request(9),
            "x".to_string(),
            issuer
        )),
        Some(ErrorCode::ValidationError)
    );
}

#[test]
fn request_contexts_list_their_operations() {
    let (mut env, _) = setup();
    assert!(AnchorKitContract::get_request_context(&env, bytes(1, 16)).is_none());
    AnchorKitContract::create_request_context(&mut env, &request(1)).unwrap();
    AnchorKitContract::append_operation(&mut env, &bytes(1, 16), "a".to_string()).unwrap();
    AnchorKitContract::append_operation(&mut env, &bytes(1, 16), "b".to_string()).unwrap();
    let context = AnchorKitContract::get_request_context(&env, bytes(1, 16)).unwrap();
    assert_eq!(context.operation_chain, vec!["a".to_string(), "b".to_string()]);
    // The context is created where there is none.
    AnchorKitContract::append_operation(&mut env, &bytes(2, 16), "c".to_string()).unwrap();
    let context = AnchorKitContract::get_request_context(&env, bytes(2, 16)).unwrap();
    assert_eq!(context.operation_chain, vec!["c".to_string()]);
    assert_eq!(
        code(AnchorKitContract::append_operation(&mut env, &bytes(2, 16), String::new())),
        Some(ErrorCode::ValidationError)
    );
}

#[test]
fn traced_quotes_are_stored() {
    let (mut env, issuer) = setup();
    AnchorKitContract::quote_with_request_id(
        &mut env,
        &request(1),
        issuer,
        "USD".to_string(),
        "EUR".to_string(),
        90,
        25,
        10,
        0,
        2_000,
    )
    .unwrap();
    assert_eq!(AnchorKitContract::get_quote(&env, issuer, 1).unwrap().rate, 90);
    assert!(AnchorKitContract::get_tracing_span(&env, bytes(1, 16)).is_some());
    assert_eq!(
        code(AnchorKitContract::quote_with_request_id(
            &mut env,
            &request(2),
            generate(50),
            "USD".to_string(),
            "EUR".to_string(),
            90,
            25,
            10,
            0,
            2_000,
        )),
        Some(ErrorCode::ServicesNotConfigured)
    );
}

#[test]
fn payload_hashes_verify_against_the_record() {
    let (mut env, issuer) = setup();
    let hash =
        AnchorKitContract::compute_payload_hash(generate(30), 500, &bytes(3, 10)).unwrap();
    let id = AnchorKitContract::submit_attestation(
        &mut env,
        issuer,
        generate(30),
        500,
        Bytes::from_slice(&hash),
        sign(&Bytes::from_slice(&hash)),
    )
    .unwrap();
    assert_eq!(AnchorKitContract::verify_payload_hash(&env, id, hash), Ok(true));
    assert_eq!(AnchorKitContract::verify_payload_hash(&env, id, [0; 32]), Ok(false));
    assert_eq!(
        code(AnchorKitContract::verify_payload_hash(&env, id + 1, hash)),
        Some(ErrorCode::AttestationNotFound)
    );
}

#[test]
fn storage_keys_hash_prefix_and_values() {
    let who = generate(3);
    let xdr = who.to_xdr();
    assert_eq!(
        storage_key(&StorageKey::Global(GlobalRecord::Admin)),
        make_storage_key(&[b"ADMIN"]).unwrap()
    );
    assert_eq!(
        storage_key(&StorageKey::Of(AddressRecord::Kyc, who)),
        make_storage_key(&[b"KYC", &xdr]).unwrap()
    );
    assert_eq!(
        storage_key(&StorageKey::Numbered(NumberedRecord::Session, 7)),
        make_storage_key(&[b"SESS", &7u64.to_be_bytes()]).unwrap()
    );
    assert_eq!(
        storage_key(&StorageKey::Role(AdminRole::CacheAdmin, who)),
        make_storage_key(&[b"ROLESET", &[2], &xdr]).unwrap()
    );
    assert_eq!(
        storage_key(&StorageKey::Capability(AdminCapability::SetRateLimits, who)),
        make_storage_key(&[b"CAPSET", &[7], &xdr]).unwrap()
    );
    assert_eq!(
        storage_key(&StorageKey::MetaVersion(who, 4)),
        make_storage_key(&[b"METAHIST", &xdr, &4u32.to_be_bytes()]).unwrap()
    );
    assert_eq!(
        storage_key(&StorageKey::UsedPayload(who, vec![1, 2])),
        make_storage_key(&[b"USED", &xdr, &[1, 2]]).unwrap()
    );
}

#[test]
fn text_values_are_encoded_as_the_host_does() {
    let host = Env::default();
    for text in ["", "a", "kyc", "four", "aml-5"] {
        let xdr = soroban_sdk::String::from_str(&host, text).to_xdr(&host);
        let mut raw: Vec<u8> = Vec::new();
        for i in 0..xdr.len() {
            raw.push(xdr.get(i).unwrap());
        }
        assert_eq!(
            storage_key(&StorageKey::Cluster(text.to_string())),
            make_storage_key(&[b"CLUSTER", &raw]).unwrap()
        );
        assert_eq!(
            storage_key(&StorageKey::NetworkProfile(text.to_string())),
            make_storage_key(&[b"NETPROF", text.as_bytes()]).unwrap()
        );
    }
}

#[test]
fn distinct_records_have_distinct_keys() {
    let keys = [
        storage_key(&StorageKey::Global(GlobalRecord::AuditCount)),
        storage_key(&StorageKey::Global(GlobalRecord::SessionCount)),
        storage_key(&StorageKey::Numbered(NumberedRecord::Audit, 1)),
        storage_key(&StorageKey::Numbered(NumberedRecord::Audit, 2)),
        storage_key(&StorageKey::SessionLog(1, 2)),
        storage_key(&StorageKey::SessionLog(2, 1)),
    ];
    for i in 0..keys.len() {
        for j in 0..i {
            assert_ne!(keys[i], keys[j]);
        }
    }
}
