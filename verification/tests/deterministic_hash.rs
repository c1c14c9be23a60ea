use anchorkit::address::Address;
use anchorkit::deterministic_hash::{
    compute_canonical_hash, compute_payload_hash, make_storage_key, verify_payload_hash,
    CanonicalField, ATTESTATION_PAYLOAD_DOMAIN, MAX_PAYLOAD_SIZE,
};
use anchorkit::errors::ErrorCode;
use soroban_sdk::testutils::Address as _;
use soroban_sdk::xdr::{AccountId, PublicKey, ScAddress, ScVal, ToXdr, Uint256};
use soroban_sdk::{Env, TryFromVal};

/// A fresh address of the host, as the library holds it.
fn generate(env: &Env) -> Address {
    let host_address = soroban_sdk::Address::generate(env);
    match ScAddress::from(&host_address) {
        ScAddress::Contract(id) => Address::Contract(id.0 .0),
        _ => panic!("a generated address is a contract"),
    }
}

#[test]
fn test_same_inputs_produce_same_hash() {
    let env = Env::default();
    let subject = generate(&env);
    let data = b"kyc_approved".to_vec();
    let ts: u64 = 1_700_000_000;

    let h1 = compute_payload_hash(&subject, ts, &data);
    let h2 = compute_payload_hash(&subject, ts, &data);
    assert_eq!(h1, h2);
}

#[test]
fn test_different_timestamp_produces_different_hash() {
    let env = Env::default();
    let subject = generate(&env);
    let data = b"kyc_approved".to_vec();

    let h1 = compute_payload_hash(&subject, 1_000, &data);
    let h2 = compute_payload_hash(&subject, 2_000, &data);
    assert_ne!(h1, h2);
}

#[test]
fn test_different_data_produces_different_hash() {
    let env = Env::default();
    let subject = generate(&env);
    let ts: u64 = 1_700_000_000;

    let h1 = compute_payload_hash(&subject, ts, &b"data_a".to_vec());
    let h2 = compute_payload_hash(&subject, ts, &b"data_b".to_vec());
    assert_ne!(h1, h2);
}

#[test]
fn test_verify_payload_hash_match() {
    let env = Env::default();
    let subject = generate(&env);
    let data = b"payment_confirmed".to_vec();
    let ts: u64 = 1_700_000_000;

    let hash = compute_payload_hash(&subject, ts, &data);
    let hash = hash.unwrap();
    assert!(verify_payload_hash(&hash, &hash));
}

#[test]
fn test_verify_payload_hash_mismatch() {
    let env = Env::default();
    let subject = generate(&env);
    let data = b"payment_confirmed".to_vec();
    let ts: u64 = 1_700_000_000;

    let h1 = compute_payload_hash(&subject, ts, &data);
    let h2 = compute_payload_hash(&subject, ts + 1, &data);
    assert!(!verify_payload_hash(&h1.unwrap(), &h2.unwrap()));
}

#[test]
fn test_empty_payload_rejected() {
    let env = Env::default();
    let subject = generate(&env);
    let empty = Vec::<u8>::new();
    // Must fail with ValidationError — empty payloads are forbidden.
    assert_eq!(
        compute_payload_hash(&subject, 1_700_000_000, &empty),
        Err(ErrorCode::ValidationError)
    );
}

#[test]
fn test_oversize_payload_rejected() {
    let env = Env::default();
    let subject = generate(&env);

    // MAX_PAYLOAD_SIZE + 1 bytes
    let too_large = {
        let mut v = Vec::new();
        v.resize(MAX_PAYLOAD_SIZE as usize + 1, 0u8);
        v
    };
    assert_eq!(
        compute_payload_hash(&subject, 1_700_000_000, &too_large),
        Err(ErrorCode::ValidationError)
    );
}

/// Canonical fixture: same subject + timestamp + data must always hash to the
/// same value, regardless of SDK version or platform. The expected digest is
/// recorded here so that any unintended change to the canonical serialization
/// is caught immediately.
#[test]
fn test_canonical_fixture_is_stable() {
    let env = Env::default();
    let subject = generate(&env);
    let data = b"kyc_approved".to_vec();
    let ts: u64 = 1_700_000_000;

    let h1 = compute_payload_hash(&subject, ts, &data);
    // Compute again with identical inputs — must be bit-for-bit equal.
    let h2 = compute_payload_hash(&subject, ts, &data);
    assert_eq!(h1, h2, "canonical hash must be deterministic across calls");

    // Changing only the subject must produce a different digest.
    let subject2 = generate(&env);
    let h3 = compute_payload_hash(&subject2, ts, &data);
    assert_ne!(h1, h3, "different subjects must yield different hashes");
}

#[test]
fn test_canonical_hash_deterministic_for_same_fields() {
    let data = b"payload".to_vec();

    let h1 = compute_canonical_hash(&[CanonicalField::Bytes(&data), CanonicalField::U64(42)],
    );
    let h2 = compute_canonical_hash(&[CanonicalField::Bytes(&data), CanonicalField::U64(42)],
    );
    assert_eq!(h1, h2, "identical field lists must hash identically");
}

#[test]
fn test_canonical_hash_ordering_sensitive() {
    let data = b"payload".to_vec();

    let h_ab = compute_canonical_hash(&[CanonicalField::Bytes(&data), CanonicalField::U64(42)],
    );
    let h_ba = compute_canonical_hash(&[CanonicalField::U64(42), CanonicalField::Bytes(&data)],
    );
    assert_ne!(h_ab, h_ba, "swapping field order must change the digest");
}

#[test]
fn test_canonical_hash_option_none_differs_from_some_empty() {
    let empty = Vec::<u8>::new();

    let h_none = compute_canonical_hash(&[CanonicalField::Option(None)]);
    let h_some_empty = compute_canonical_hash(&[CanonicalField::Option(Some(&empty))]);
    assert_ne!(
        h_none, h_some_empty,
        "None must not collide with Some(empty)"
    );
}

#[test]
fn test_canonical_hash_option_some_value_differs_from_none() {
    let data = b"x".to_vec();

    let h_none = compute_canonical_hash(&[CanonicalField::Option(None)]);
    let h_some = compute_canonical_hash(&[CanonicalField::Option(Some(&data))]);
    assert_ne!(h_none, h_some);
}

#[test]
fn test_canonical_hash_empty_list_differs_from_list_with_empty_element() {
    let empty_elem = Vec::<u8>::new();

    let h_empty_list = compute_canonical_hash(&[CanonicalField::List(&[])]);
    let items = [empty_elem];
    let h_one_empty_elem = compute_canonical_hash(&[CanonicalField::List(&items)]);
    assert_ne!(
        h_empty_list, h_one_empty_elem,
        "an empty list must not collide with a list containing one empty element"
    );
}

#[test]
fn test_canonical_hash_list_ordering_sensitive() {
    let a = b"a".to_vec();
    let b = b"b".to_vec();

    let ab = [a.clone(), b.clone()];
    let ba = [b, a];
    let h_ab = compute_canonical_hash(&[CanonicalField::List(&ab)]);
    let h_ba = compute_canonical_hash(&[CanonicalField::List(&ba)]);
    assert_ne!(h_ab, h_ba, "list element order must be significant");
}

#[test]
fn test_canonical_hash_nested_structures() {

    // Build an "inner" canonical digest representing a nested record.
    let inner_a = b"inner-a".to_vec();
    let inner_hash_1 = compute_canonical_hash(&[CanonicalField::Bytes(&inner_a), CanonicalField::U32(1)],
    );
    let inner_hash_2 = compute_canonical_hash(&[CanonicalField::Bytes(&inner_a), CanonicalField::U32(2)],
    );

    // Feed each nested digest into an outer payload alongside other fields.
    let outer_bytes_1 = inner_hash_1.unwrap().to_vec();
    let outer_bytes_2 = inner_hash_2.unwrap().to_vec();

    let outer_1 = compute_canonical_hash(&[
            CanonicalField::Bytes(&outer_bytes_1),
            CanonicalField::Bool(true),
        ],
    );
    let outer_2 = compute_canonical_hash(&[
            CanonicalField::Bytes(&outer_bytes_2),
            CanonicalField::Bool(true),
        ],
    );

    assert_ne!(
        outer_1, outer_2,
        "a change in a nested inner payload must change the outer digest"
    );
}

#[test]
fn test_canonical_hash_type_tag_prevents_cross_kind_collision() {
    // A Bytes field carrying the exact same bytes as a U32's BE encoding
    // must not collide with the U32 field, thanks to type tagging.
    let raw = 42u32.to_be_bytes().to_vec();

    let h_bytes = compute_canonical_hash(&[CanonicalField::Bytes(&raw)]);
    let h_u32 = compute_canonical_hash(&[CanonicalField::U32(42)]);
    assert_ne!(h_bytes, h_u32, "different field kinds must never collide");
}

#[test]
fn test_canonical_hash_bool_true_differs_from_false() {
    let h_true = compute_canonical_hash(&[CanonicalField::Bool(true)]);
    let h_false = compute_canonical_hash(&[CanonicalField::Bool(false)]);
    assert_ne!(h_true, h_false);
}

#[test]
fn test_canonical_hash_empty_field_list_is_stable() {
    let h1 = compute_canonical_hash(&[]);
    let h2 = compute_canonical_hash(&[]);
    assert_eq!(h1, h2, "hashing zero fields must still be deterministic");
}

/// A Bool field followed by a U32 field must produce a different digest than
/// a Bool field alone, even when the Bool value byte (0x01 or 0x00) happens
/// to match the tag byte of the next field type.
///
/// `tag || 0x00_00_00_01 || value_byte`, which is 6 bytes — unambiguous.
#[test]
fn test_bool_adjacent_field_boundary_is_unambiguous() {

    // [Bool(true)] must differ from [Bool(true), U32(0)]
    let h_bool_only = compute_canonical_hash(&[CanonicalField::Bool(true)]);
    let h_bool_then_u32 =
        compute_canonical_hash(&[CanonicalField::Bool(true), CanonicalField::U32(0)]);
    assert_ne!(
        h_bool_only, h_bool_then_u32,
        "Bool(true) alone must not collide with Bool(true) followed by U32(0)"
    );

    // [Bool(false), U32(1)] must differ from [Bool(false)] — the U32's tag
    // byte is 2 (CanonicalTag::U32), so without framing `false` (0x00) could
    // create an off-by-one boundary that masks the trailing field.
    let h_false_only = compute_canonical_hash(&[CanonicalField::Bool(false)]);
    let h_false_then_u32 =
        compute_canonical_hash(&[CanonicalField::Bool(false), CanonicalField::U32(1)]);
    assert_ne!(
        h_false_only, h_false_then_u32,
        "Bool(false) alone must not collide with Bool(false) followed by U32(1)"
    );

    // [Bool(true)] and [Bool(false)] must still differ from each other after
    assert_ne!(
        h_bool_only, h_false_only,
        "Bool(true) must still differ from Bool(false)"
    );
}

// List-length overflow guard

#[test]
fn test_list_within_u32_range_hashes_stably() {
    let a = b"item-a".to_vec();
    let b_item = b"item-b".to_vec();
    let items = [a.clone(), b_item.clone()];

    let h1 = compute_canonical_hash(&[CanonicalField::List(&items)]);
    let h2 = compute_canonical_hash(&[CanonicalField::List(&items)]);
    assert_eq!(h1, h2, "same list must always hash identically");

    // Confirm a different list produces a different hash.
    let single = [a];
    let h3 = compute_canonical_hash(&[CanonicalField::List(&single)]);
    assert_ne!(h1, h3, "lists of different lengths must not collide");
}

/// actually provides separation, and it must be stable (same value every
/// call) so that previously stored hashes remain verifiable.
#[test]
fn test_attestation_payload_domain_is_nonempty_and_stable() {
    assert!(
        !ATTESTATION_PAYLOAD_DOMAIN.is_empty(),
        "ATTESTATION_PAYLOAD_DOMAIN must not be empty"
    );
    // Two references to the constant must compare equal — it is a fixed value.
    assert_eq!(
        ATTESTATION_PAYLOAD_DOMAIN, ATTESTATION_PAYLOAD_DOMAIN,
        "ATTESTATION_PAYLOAD_DOMAIN must be deterministic"
    );
}

/// Hashes produced by `compute_payload_hash` must differ from hashes
/// produced by `compute_canonical_hash` over the same raw bytes, proving
#[test]
fn test_payload_hash_domain_separated_from_canonical_hash() {
    let env = Env::default();
    let subject = generate(&env);
    let data = b"kyc_approved".to_vec();
    let ts: u64 = 1_700_000_000;

    let attestation_hash = compute_payload_hash(&subject, ts, &data);

    // Hash produced by the generic path over the same data bytes alone —
    // should never collide with the attestation hash.
    let generic_hash = compute_canonical_hash(&[CanonicalField::Bytes(&data)]);

    assert_ne!(
        attestation_hash, generic_hash,
        "attestation payload hash must be domain-separated from generic canonical hash"
    );
}

fn host_xdr(env: &Env, address: ScAddress) -> Vec<u8> {
    let host = soroban_sdk::Address::try_from_val(env, &ScVal::Address(address)).unwrap();
    let xdr = host.to_xdr(env);
    let mut raw: Vec<u8> = Vec::new();
    for i in 0..xdr.len() {
        raw.push(xdr.get(i).unwrap());
    }
    raw
}

#[test]
fn addresses_are_encoded_as_the_host_does() {
    let env = Env::default();
    let account = ScAddress::Account(AccountId(PublicKey::PublicKeyTypeEd25519(Uint256([9; 32]))));
    assert_eq!(Address::Account([9; 32]).to_xdr(), host_xdr(&env, account));
    let generated = soroban_sdk::Address::generate(&env);
    match ScAddress::from(&generated) {
        ScAddress::Contract(id) => {
            let raw = id.0 .0;
            assert_eq!(Address::Contract(raw).to_xdr(), host_xdr(&env, ScAddress::from(&generated)));
        }
        _ => panic!("a generated address is a contract"),
    }
}

#[test]
fn storage_keys_frame_each_segment() {
    // SHA-256 of 00000002 "ab" 00000001 "c".
    let expected: [u8; 32] = [
        0xf2, 0x93, 0x9f, 0x90, 0x30, 0x16, 0xe5, 0xbb, 0x29, 0xb1, 0xe4, 0xa6, 0x1c, 0xdb, 0xd3, 0x76,
        0x22, 0x0c, 0xa0, 0x3a, 0x24, 0x18, 0x0b, 0x39, 0x99, 0x5f, 0x2d, 0x50, 0xf2, 0xe0, 0xa6, 0x47,
    ];
    assert_eq!(make_storage_key(&[b"ab", b"c"]), Ok(expected));
    assert_ne!(make_storage_key(&[b"a", b"bc"]), Ok(expected));
    assert_ne!(make_storage_key(&[b"abc"]), Ok(expected));
}

#[test]
fn payloads_are_hashed_with_their_domain() {
    let env = Env::default();
    let subject = generate(&env);
    let mut input = soroban_sdk::Bytes::new(&env);
    input.extend_from_slice(&ATTESTATION_PAYLOAD_DOMAIN);
    input.extend_from_slice(&subject.to_xdr());
    input.extend_from_array(&5u64.to_be_bytes());
    input.extend_from_slice(b"data");
    let expected = env.crypto().sha256(&input).to_array();
    assert_eq!(compute_payload_hash(&subject, 5, b"data"), Ok(expected));
}

#[test]
fn long_inputs_are_hashed() {
    let part = vec![b'a'; 2_100_000];
    let expected = [
        0x81, 0x8f, 0xa9, 0x7f, 0x21, 0x58, 0xb8, 0x1f, 0xa2, 0xa8, 0x2c, 0xe5,
        0xa6, 0xcf, 0x44, 0x9e, 0x69, 0x11, 0xd9, 0x1b, 0x77, 0x1e, 0x10, 0x01,
        0x24, 0x5b, 0x0b, 0x2a, 0x07, 0x00, 0x09, 0x0a,
    ];
    assert_eq!(make_storage_key(&[part.as_slice()]), Ok(expected));
    // A call leaves nothing behind that could stop the next one.
    assert_eq!(make_storage_key(&[part.as_slice()]), Ok(expected));
}
