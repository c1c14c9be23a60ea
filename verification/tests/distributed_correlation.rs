use anchorkit::distributed_correlation::{
    CorrelationContext, CorrelationError, HOP_COUNT_HEADER,
};

#[test]
fn new_produces_valid_correlation_id() {
    let ctx = CorrelationContext::new("gateway", "txn-001");
    assert_eq!(ctx.correlation_id().len(), 32);
    assert!(ctx.correlation_id().bytes().all(|b| b.is_ascii_hexdigit()));
    assert_eq!(ctx.hop_count(), 0);
    assert_eq!(ctx.origin_service(), "gateway");
}

#[test]
fn same_seed_is_deterministic() {
    let a = CorrelationContext::new("svc", "txn-001");
    let b = CorrelationContext::new("svc", "txn-001");
    assert_eq!(a.correlation_id(), b.correlation_id());
}

#[test]
fn different_seeds_differ() {
    let a = CorrelationContext::new("svc", "txn-001");
    let b = CorrelationContext::new("svc", "txn-002");
    assert_ne!(a.correlation_id(), b.correlation_id());
}

#[test]
fn next_hop_preserves_correlation_id() {
    let ctx = CorrelationContext::new("gateway", "txn-001");
    let downstream = ctx.next_hop("anchor-service");
    assert_eq!(downstream.correlation_id(), ctx.correlation_id());
    assert_eq!(downstream.origin_service(), "gateway");
    assert_eq!(downstream.current_service(), "anchor-service");
    assert_eq!(downstream.hop_count(), 1);
}

#[test]
fn multi_hop_increments_count() {
    let ctx = CorrelationContext::new("a", "seed");
    let hop1 = ctx.next_hop("b");
    let hop2 = hop1.next_hop("c");
    let hop3 = hop2.next_hop("d");
    assert_eq!(hop3.hop_count(), 3);
    assert_eq!(hop3.correlation_id(), ctx.correlation_id());
}

#[test]
fn header_round_trip() {
    let ctx = CorrelationContext::new("gateway", "txn-round-trip")
        .set_baggage("env", "prod")
        .set_baggage("region", "us-east-1");

    let headers = ctx.to_headers();
    let parsed = CorrelationContext::from_headers(&headers).unwrap();

    assert_eq!(parsed.correlation_id(), ctx.correlation_id());
    assert_eq!(parsed.origin_service(), ctx.origin_service());
    assert_eq!(parsed.hop_count(), ctx.hop_count());
    assert_eq!(parsed.baggage("env"), Some("prod"));
    assert_eq!(parsed.baggage("region"), Some("us-east-1"));
}

#[test]
fn from_headers_missing_correlation_id() {
    let headers = vec![
        ("X-Origin-Service".to_string(), "svc".to_string()),
    ];
    assert_eq!(
        CorrelationContext::from_headers(&headers),
        Err(CorrelationError::MissingCorrelationId)
    );
}

#[test]
fn from_headers_invalid_hop_count() {
    let ctx = CorrelationContext::new("svc", "seed");
    let mut headers = ctx.to_headers();
    for (k, v) in headers.iter_mut() {
        if k == HOP_COUNT_HEADER {
            *v = "not-a-number".to_string();
        }
    }
    assert!(matches!(
        CorrelationContext::from_headers(&headers),
        Err(CorrelationError::InvalidHopCount(_))
    ));
}

#[test]
fn with_id_accepts_valid_id() {
    let valid = "abcdef0123456789abcdef0123456789";
    let ctx = CorrelationContext::with_id("svc", valid).unwrap();
    assert_eq!(ctx.correlation_id(), valid);
}

#[test]
fn with_id_rejects_invalid_id() {
    let bad = "too-short";
    assert!(matches!(
        CorrelationContext::with_id("svc", bad),
        Err(CorrelationError::InvalidCorrelationId(_))
    ));
}

#[test]
fn duplicate_correlation_link_is_ignored() {
    let ctx = CorrelationContext::new("svc", "txn-001");
    let other = CorrelationContext::new("svc", "txn-002");

    let mut links = Vec::new();

    ctx.add_correlation_link(&mut links);
    ctx.add_correlation_link(&mut links);
    other.add_correlation_link(&mut links);

    assert_eq!(
        links,
        vec![
            ctx.correlation_id().to_string(),
            other.correlation_id().to_string(),
        ]
    );
}

#[test]
fn log_fields_format() {
    let ctx = CorrelationContext::new("gateway", "txn-log");
    let fields = ctx.log_fields();
    assert!(fields.contains("corr="));
    assert!(fields.contains("origin=gateway"));
    assert!(fields.contains("hop=0"));
}

#[test]
fn identifiers_are_the_first_half_of_the_digest() {
    let ctx = CorrelationContext::new("gateway", "txn-001");
    assert_eq!(ctx.correlation_id(), "0250222b9afdabc7d092f149c160a2a6");
    assert_eq!(
        CorrelationContext::new("gateway", "").correlation_id(),
        "e3b0c44298fc1c149afbf4c8996fb924"
    );
}

#[test]
fn baggage_travels_in_headers() {
    let ctx = CorrelationContext::new("gateway", "txn-001").set_baggage("b", "2").set_baggage("a", "1");
    assert_eq!(ctx.baggage("a"), Some("1"));
    assert_eq!(ctx.baggage("z"), None);
    let read = CorrelationContext::from_headers(ctx.to_headers().as_slice()).unwrap();
    assert_eq!(read.baggage("a"), Some("1"));
    assert_eq!(read.baggage("b"), Some("2"));
    let changed = read.set_baggage("a", "3");
    assert_eq!(changed.baggage("a"), Some("3"));
}

#[test]
fn errors_have_a_message() {
    let e = CorrelationContext::with_id("svc", "short").err().unwrap();
    assert!(!e.message().is_empty());
}

#[test]
fn log_fields_name_the_origin_and_the_hop() {
    let ctx = CorrelationContext::with_id("gateway", "abcdef0123456789abcdef0123456789").unwrap();
    assert_eq!(ctx.log_fields(), "corr=abcdef0123456789abcdef0123456789 origin=gateway hop=0");
    assert_eq!(
        ctx.next_hop("payments").log_fields(),
        "corr=abcdef0123456789abcdef0123456789 origin=gateway hop=1"
    );
}
