//! Deterministic SHA-256 hashing: storage keys, attestation payloads and
//! structured payloads.
//!
//! Every input is encoded so that it can be read back in one way only: segments
//! carry their length, fields carry their kind, and attestation payloads start
//! with a domain prefix of their own.
use crate::address::{same32, Address};
use crate::encoding::{be4, be4_injective, be8, be8_injective, push_be4, push_be8, push_bytes};
use crate::errors::ErrorCode;
use vstd::prelude::*;

verus! {

/// The SHA-256 digest of `data`, as the host computes it.
pub uninterp spec fn sha256_digest(data: Seq<u8>) -> Seq<u8>;

/// Calls `soroban_sdk::crypto::Crypto::sha256` on `data`: the result is the
/// 32-byte digest, a function of the bytes alone. The call runs on a host of its
/// own whose metering has no limit, so that no budget that others have used up
/// can stop it; a byte object of the host holds at most `u32::MAX` bytes.
#[verifier::external_body]
pub(crate) fn host_sha256(data: &Vec<u8>) -> (digest: [u8; 32])
    requires
        data@.len() <= u32::MAX,
    ensures
        digest@ == sha256_digest(data@),
{
    let config = soroban_sdk::testutils::EnvTestConfig { capture_snapshot_at_drop: false };
    let env = soroban_sdk::Env::new_with_config(config);
    env.cost_estimate().budget().reset_unlimited();
    let bytes = soroban_sdk::Bytes::from_slice(&env, data.as_slice());
    env.crypto().sha256(&bytes).to_array()
}

/// Most bytes that an attestation payload may hold.
pub const MAX_PAYLOAD_SIZE: u32 = 4096;

/// Prefix of every attestation payload that is hashed: the ASCII bytes of
/// `anchorkit_attestation_v1`.
pub const ATTESTATION_PAYLOAD_DOMAIN: [u8; 24] = [
    0x61, 0x6e, 0x63, 0x68, 0x6f, 0x72, 0x6b, 0x69, 0x74, 0x5f, 0x61, 0x74, 0x74, 0x65, 0x73, 0x74,
    0x61, 0x74, 0x69, 0x6f, 0x6e, 0x5f, 0x76, 0x31,
];

/// A segment behind its length in four big-endian bytes.
pub open spec fn framed(d: Seq<u8>) -> Seq<u8> {
    be4(d.len() as u32) + d
}

/// All segments, each behind its length.
pub open spec fn framed_all(parts: Seq<Seq<u8>>) -> Seq<u8>
    decreases parts.len(),
{
    if parts.len() == 0 {
        Seq::empty()
    } else {
        framed(parts[0]) + framed_all(parts.skip(1))
    }
}

/// Whether every segment's length fits its four-byte prefix.
pub open spec fn fit(parts: Seq<Seq<u8>>) -> bool {
    forall|i: int| 0 <= i < parts.len() ==> (#[trigger] parts[i]).len() <= u32::MAX
}

proof fn framed_all_push(parts: Seq<Seq<u8>>, d: Seq<u8>)
    ensures
        framed_all(parts.push(d)) == framed_all(parts) + framed(d),
    decreases parts.len(),
{
    if parts.len() == 0 {
        assert(parts.push(d).skip(1) =~= Seq::<Seq<u8>>::empty());
        assert(framed_all(parts.push(d).skip(1)) =~= Seq::<u8>::empty());
        assert(framed_all(parts.push(d)) =~= framed_all(parts) + framed(d));
    } else {
        assert(parts.push(d).skip(1) =~= parts.skip(1).push(d));
        framed_all_push(parts.skip(1), d);
        assert(framed_all(parts.push(d)) =~= framed_all(parts) + framed(d));
    }
}

/// A framed segment ends where its length says, whatever follows it.
pub proof fn framed_is_delimited(a: Seq<u8>, x: Seq<u8>, b: Seq<u8>, y: Seq<u8>)
    requires
        a.len() <= u32::MAX,
        b.len() <= u32::MAX,
        framed(a) + x == framed(b) + y,
    ensures
        a == b,
        x == y,
{
    let s = framed(a) + x;
    let t = framed(b) + y;
    assert(s.take(4) =~= be4(a.len() as u32));
    assert(t.take(4) =~= be4(b.len() as u32));
    be4_injective(a.len() as u32, b.len() as u32);
    assert(s.skip(4) =~= a + x);
    assert(t.skip(4) =~= b + y);
    assert(a =~= (a + x).take(a.len() as int));
    assert(b =~= (b + y).take(b.len() as int));
    assert(x =~= (a + x).skip(a.len() as int));
    assert(y =~= (b + y).skip(b.len() as int));
}

proof fn framed_all_delimited(p: Seq<Seq<u8>>, x: Seq<u8>, q: Seq<Seq<u8>>, y: Seq<u8>)
    requires
        fit(p),
        fit(q),
        p.len() == q.len(),
        framed_all(p) + x == framed_all(q) + y,
    ensures
        p == q,
        x == y,
    decreases p.len(),
{
    if p.len() == 0 {
        assert(x =~= framed_all(p) + x);
        assert(y =~= framed_all(q) + y);
        assert(p =~= q);
    } else {
        let rp = framed_all(p.skip(1)) + x;
        let rq = framed_all(q.skip(1)) + y;
        assert(framed_all(p) + x =~= framed(p[0]) + rp);
        assert(framed_all(q) + y =~= framed(q[0]) + rq);
        framed_is_delimited(p[0], rp, q[0], rq);
        framed_all_delimited(p.skip(1), x, q.skip(1), y);
        assert forall|i: int| 0 <= i < p.len() implies p[i] == q[i] by {
            if i > 0 {
                assert(p[i] == p.skip(1)[i - 1]);
                assert(q[i] == q.skip(1)[i - 1]);
            }
        }
        assert(p =~= q);
    }
}

/// Different lists of segments give different storage-key inputs: segments
/// cannot bleed into each other.
pub proof fn storage_key_input_is_injective(p: Seq<Seq<u8>>, q: Seq<Seq<u8>>)
    requires
        fit(p),
        fit(q),
        framed_all(p) == framed_all(q),
    ensures
        p == q,
    decreases p.len(),
{
    if p.len() == 0 {
        if q.len() > 0 {
            assert(framed_all(q).len() >= 4);
        }
        assert(p =~= q);
    } else if q.len() == 0 {
        assert(framed_all(p).len() >= 4);
    } else {
        let rp = framed_all(p.skip(1));
        let rq = framed_all(q.skip(1));
        framed_is_delimited(p[0], rp, q[0], rq);
        storage_key_input_is_injective(p.skip(1), q.skip(1));
        assert forall|i: int| 0 <= i < p.len() implies p[i] == q[i] by {
            if i > 0 {
                assert(p[i] == p.skip(1)[i - 1]);
                assert(q[i] == q.skip(1)[i - 1]);
            }
        }
        assert(p =~= q);
    }
}

/// The segments as byte sequences.
pub open spec fn segments(parts: Seq<&[u8]>) -> Seq<Seq<u8>> {
    parts.map_values(|p: &[u8]| p@)
}

/// The storage key for the given segments: the digest of all segments, each
/// behind its length. A segment whose length does not fit four bytes is
/// refused.
pub fn make_storage_key(parts: &[&[u8]]) -> (r: Result<[u8; 32], ErrorCode>)
    requires
        fit(segments(parts@)) ==> framed_all(segments(parts@)).len() <= u32::MAX,
    ensures
        match r {
            Ok(key) => fit(segments(parts@)) && key@ == sha256_digest(framed_all(segments(parts@))),
            Err(e) => !fit(segments(parts@)) && e == ErrorCode::ValidationError,
        },
{
    let ghost segs = segments(parts@);
    let mut input: Vec<u8> = Vec::new();
    let n: usize = parts.len();
    let mut i: usize = 0;
    assert(framed_all(segs.take(0)) =~= Seq::<u8>::empty());
    while i < n
        invariant
            n == parts@.len(),
            segs == segments(parts@),
            0 <= i <= n,
            input@ == framed_all(segs.take(i as int)),
            forall|j: int| 0 <= j < i ==> (#[trigger] segs[j]).len() <= u32::MAX,
        decreases n - i,
    {
        let part: &[u8] = parts[i];
        assert(segs[i as int] == part@);
        if part.len() > u32::MAX as usize {
            return Err(ErrorCode::ValidationError);
        }
        push_be4(&mut input, part.len() as u32);
        push_bytes(&mut input, part);
        proof {
            assert(segs.take(i + 1) =~= segs.take(i as int).push(segs[i as int]));
            framed_all_push(segs.take(i as int), segs[i as int]);
            assert(input@ =~= framed_all(segs.take(i + 1)));
        }
        i = i + 1;
    }
    assert(segs.take(n as int) =~= segs);
    Ok(host_sha256(&input))
}

/// The bytes that are hashed for an attestation payload.
pub open spec fn payload_input(subject: Address, timestamp: u64, data: Seq<u8>) -> Seq<u8> {
    ATTESTATION_PAYLOAD_DOMAIN@ + subject.xdr() + be8(timestamp) + data
}

/// Whether a payload has an accepted size.
pub open spec fn payload_accepted(data: Seq<u8>) -> bool {
    0 < data.len() <= MAX_PAYLOAD_SIZE
}

/// The hash of an attestation payload: domain prefix, subject, timestamp, data,
/// in this order. An empty payload, and one over [`MAX_PAYLOAD_SIZE`], is
/// refused.
pub fn compute_payload_hash(
    subject: &Address,
    timestamp: u64,
    data: &[u8],
) -> (r: Result<[u8; 32], ErrorCode>)
    ensures
        match r {
            Ok(h) => payload_accepted(data@) && h@ == sha256_digest(
                payload_input(*subject, timestamp, data@),
            ),
            Err(e) => !payload_accepted(data@) && e == ErrorCode::ValidationError,
        },
{
    if data.len() == 0 || data.len() > MAX_PAYLOAD_SIZE as usize {
        return Err(ErrorCode::ValidationError);
    }
    let mut input: Vec<u8> = Vec::new();
    push_bytes(&mut input, ATTESTATION_PAYLOAD_DOMAIN.as_slice());
    let subject_bytes: Vec<u8> = subject.to_xdr();
    push_bytes(&mut input, subject_bytes.as_slice());
    push_be8(&mut input, timestamp);
    push_bytes(&mut input, data);
    assert(input@ =~= payload_input(*subject, timestamp, data@));
    Ok(host_sha256(&input))
}

/// Whether two digests are equal.
pub fn verify_payload_hash(stored: &[u8; 32], expected: &[u8; 32]) -> (r: bool)
    ensures
        r == (*stored == *expected),
{
    same32(stored, expected)
}

/// One field of a structured payload.
pub enum CanonicalField<'a> {
    /// Raw bytes.
    Bytes(&'a [u8]),
    /// An eight-byte big-endian integer.
    U64(u64),
    /// A four-byte big-endian integer.
    U32(u32),
    /// One byte, 0 or 1.
    Bool(bool),
    /// Bytes that may be absent.
    Option(Option<&'a [u8]>),
    /// An ordered list of byte strings.
    List(&'a [Vec<u8>]),
}

/// What a [`CanonicalField`] holds.
pub enum FieldValue {
    Bytes(Seq<u8>),
    U64(u64),
    U32(u32),
    Bool(bool),
    Absent,
    Present(Seq<u8>),
    List(Seq<Seq<u8>>),
}

/// The elements of a list field.
pub open spec fn list_value(items: Seq<Vec<u8>>) -> Seq<Seq<u8>> {
    items.map_values(|v: Vec<u8>| v@)
}

impl<'a> View for CanonicalField<'a> {
    type V = FieldValue;

    open spec fn view(&self) -> FieldValue {
        match self {
            CanonicalField::Bytes(d) => FieldValue::Bytes(d@),
            CanonicalField::U64(v) => FieldValue::U64(*v),
            CanonicalField::U32(v) => FieldValue::U32(*v),
            CanonicalField::Bool(b) => FieldValue::Bool(*b),
            CanonicalField::Option(None) => FieldValue::Absent,
            CanonicalField::Option(Some(d)) => FieldValue::Present(d@),
            CanonicalField::List(items) => FieldValue::List(list_value(items@)),
        }
    }
}

impl FieldValue {
    /// The byte that tells the kinds of fields apart.
    pub open spec fn kind(self) -> u8 {
        match self {
            FieldValue::Bytes(_) => 0,
            FieldValue::U64(_) => 1,
            FieldValue::U32(_) => 2,
            FieldValue::Bool(_) => 3,
            FieldValue::Absent => 4,
            FieldValue::Present(_) => 5,
            FieldValue::List(_) => 6,
        }
    }

    /// What follows the kind byte: the content behind its length, nothing for
    /// an absent value, the element count and the framed elements for a list.
    pub open spec fn body(self) -> Seq<u8> {
        match self {
            FieldValue::Bytes(d) => framed(d),
            FieldValue::U64(v) => framed(be8(v)),
            FieldValue::U32(v) => framed(be4(v)),
            FieldValue::Bool(b) => framed(seq![if b { 1u8 } else { 0u8 }]),
            FieldValue::Absent => Seq::empty(),
            FieldValue::Present(d) => framed(d),
            FieldValue::List(items) => be4(items.len() as u32) + framed_all(items),
        }
    }

    /// The kind byte, then the body.
    pub open spec fn encoding(self) -> Seq<u8> {
        seq![self.kind()] + self.body()
    }

    /// Whether every length in the field fits its four-byte prefix.
    pub open spec fn encodable(self) -> bool {
        match self {
            FieldValue::Bytes(d) => d.len() <= u32::MAX,
            FieldValue::Present(d) => d.len() <= u32::MAX,
            FieldValue::List(items) => items.len() <= u32::MAX && fit(items),
            _ => true,
        }
    }
}

/// The encodings of all fields, in order.
pub open spec fn canonical_input(fields: Seq<FieldValue>) -> Seq<u8>
    decreases fields.len(),
{
    if fields.len() == 0 {
        Seq::empty()
    } else {
        fields[0].encoding() + canonical_input(fields.skip(1))
    }
}

/// Whether every field can be encoded.
pub open spec fn all_encodable(fields: Seq<FieldValue>) -> bool {
    forall|i: int| 0 <= i < fields.len() ==> (#[trigger] fields[i]).encodable()
}

/// What the fields hold.
pub open spec fn field_values(fields: Seq<CanonicalField>) -> Seq<FieldValue> {
    fields.map_values(|f: CanonicalField| f@)
}

proof fn canonical_input_push(fields: Seq<FieldValue>, f: FieldValue)
    ensures
        canonical_input(fields.push(f)) == canonical_input(fields) + f.encoding(),
    decreases fields.len(),
{
    if fields.len() == 0 {
        assert(fields.push(f).skip(1) =~= Seq::<FieldValue>::empty());
        assert(canonical_input(fields.push(f).skip(1)) =~= Seq::<u8>::empty());
        assert(canonical_input(fields.push(f)) =~= canonical_input(fields) + f.encoding());
    } else {
        assert(fields.push(f).skip(1) =~= fields.skip(1).push(f));
        canonical_input_push(fields.skip(1), f);
        assert(canonical_input(fields.push(f)) =~= canonical_input(fields) + f.encoding());
    }
}

proof fn field_is_delimited(f: FieldValue, x: Seq<u8>, g: FieldValue, y: Seq<u8>)
    requires
        f.encodable(),
        g.encodable(),
        f.encoding() + x == g.encoding() + y,
    ensures
        f == g,
        x == y,
{
    let s = f.encoding() + x;
    let t = g.encoding() + y;
    assert(s[0] == f.kind() && t[0] == g.kind());
    assert(s.skip(1) =~= f.body() + x);
    assert(t.skip(1) =~= g.body() + y);
    body_is_delimited(f, x, g, y);
}

proof fn body_is_delimited(f: FieldValue, x: Seq<u8>, g: FieldValue, y: Seq<u8>)
    requires
        f.encodable(),
        g.encodable(),
        f.kind() == g.kind(),
        f.body() + x == g.body() + y,
    ensures
        f == g,
        x == y,
{
    match f {
        FieldValue::Bytes(d) => {
            framed_is_delimited(d, x, g->Bytes_0, y);
        },
        FieldValue::U64(v) => {
            framed_is_delimited(be8(v), x, be8(g->U64_0), y);
            be8_injective(v, g->U64_0);
        },
        FieldValue::U32(v) => {
            framed_is_delimited(be4(v), x, be4(g->U32_0), y);
            be4_injective(v, g->U32_0);
        },
        FieldValue::Bool(v) => {
            let d = seq![if v { 1u8 } else { 0u8 }];
            let e = seq![if g->Bool_0 { 1u8 } else { 0u8 }];
            framed_is_delimited(d, x, e, y);
            assert(d[0] == e[0]);
        },
        FieldValue::Absent => {
            assert(x =~= f.body() + x);
            assert(y =~= g.body() + y);
        },
        FieldValue::Present(d) => {
            framed_is_delimited(d, x, g->Present_0, y);
        },
        FieldValue::List(p) => {
            let q = g->List_0;
            let a = f.body() + x;
            let b = g.body() + y;
            assert(a.take(4) =~= be4(p.len() as u32));
            assert(b.take(4) =~= be4(q.len() as u32));
            be4_injective(p.len() as u32, q.len() as u32);
            assert(a.skip(4) =~= framed_all(p) + x);
            assert(b.skip(4) =~= framed_all(q) + y);
            framed_all_delimited(p, x, q, y);
        },
    }
}

/// Different field lists give different hash inputs. So an absent value is
/// told from an empty one, an empty list from a list of one empty element, one
/// kind from another, and one order from another.
pub proof fn canonical_input_is_injective(p: Seq<FieldValue>, q: Seq<FieldValue>)
    requires
        all_encodable(p),
        all_encodable(q),
        canonical_input(p) == canonical_input(q),
    ensures
        p == q,
    decreases p.len(),
{
    if p.len() == 0 {
        if q.len() > 0 {
            assert(q[0].encoding().len() >= 1);
            assert(canonical_input(q).len() >= 1);
        }
        assert(p =~= q);
    } else if q.len() == 0 {
        assert(p[0].encoding().len() >= 1);
        assert(canonical_input(p).len() >= 1);
    } else {
        assert(p[0].encodable() && q[0].encodable());
        field_is_delimited(p[0], canonical_input(p.skip(1)), q[0], canonical_input(q.skip(1)));
        canonical_input_is_injective(p.skip(1), q.skip(1));
        assert forall|i: int| 0 <= i < p.len() implies p[i] == q[i] by {
            if i > 0 {
                assert(p[i] == p.skip(1)[i - 1]);
                assert(q[i] == q.skip(1)[i - 1]);
            }
        }
        assert(p =~= q);
    }
}

/// An attestation payload is never hashed over the same bytes as a list of
/// fields: no field kind has the first byte of the domain prefix.
pub proof fn payload_input_is_no_canonical_input(
    subject: Address,
    timestamp: u64,
    data: Seq<u8>,
    fields: Seq<FieldValue>,
)
    ensures
        payload_input(subject, timestamp, data) != canonical_input(fields),
{
    let s = payload_input(subject, timestamp, data);
    assert(s[0] == 0x61u8);
    if fields.len() > 0 {
        assert(fields[0].encoding()[0] <= 6);
        assert(canonical_input(fields)[0] == fields[0].encoding()[0]);
    } else {
        assert(canonical_input(fields).len() == 0);
        assert(s.len() >= 24);
    }
}

/// An attestation payload is never hashed over the same bytes as a storage key
/// whose first segment has fewer than 0x616e6368 bytes (the number that the
/// first four bytes of the domain prefix spell).
pub proof fn payload_input_is_no_storage_key_input(
    subject: Address,
    timestamp: u64,
    data: Seq<u8>,
    parts: Seq<Seq<u8>>,
)
    requires
        parts.len() > 0 ==> parts[0].len() < 0x616e6368,
    ensures
        payload_input(subject, timestamp, data) != framed_all(parts),
{
    let s = payload_input(subject, timestamp, data);
    assert(s.take(4) =~= seq![0x61u8, 0x6eu8, 0x63u8, 0x68u8]);
    if parts.len() == 0 {
        assert(framed_all(parts).len() == 0);
        assert(s.len() >= 24);
    } else if s == framed_all(parts) {
        let n = parts[0].len() as u32;
        assert(framed_all(parts).take(4) =~= be4(n));
        assert(s.take(4) == framed_all(parts).take(4));
        let d = be4(0x616e6368u32);
        assert(d =~= seq![0x61u8, 0x6eu8, 0x63u8, 0x68u8]);
        be4_injective(n, 0x616e6368u32);
    }
}

/// Payload inputs determine subject, timestamp and data.
pub proof fn payload_input_is_injective(
    s1: Address,
    t1: u64,
    d1: Seq<u8>,
    s2: Address,
    t2: u64,
    d2: Seq<u8>,
)
    requires
        payload_input(s1, t1, d1) == payload_input(s2, t2, d2),
    ensures
        s1 == s2,
        t1 == t2,
        d1 == d2,
{
    let p = payload_input(s1, t1, d1);
    let q = payload_input(s2, t2, d2);
    let a = p.skip(24);
    let b = q.skip(24);
    assert(a =~= s1.xdr() + (be8(t1) + d1));
    assert(b =~= s2.xdr() + (be8(t2) + d2));
    assert(a.subrange(4, 8) =~= s1.xdr().subrange(4, 8));
    assert(b.subrange(4, 8) =~= s2.xdr().subrange(4, 8));
    let k1: u32 = if s1 is Account { 0 } else { 1 };
    let k2: u32 = if s2 is Account { 0 } else { 1 };
    assert(s1.xdr().subrange(4, 8) =~= be4(k1));
    assert(s2.xdr().subrange(4, 8) =~= be4(k2));
    be4_injective(k1, k2);
    let n = s1.xdr().len() as int;
    assert(s2.xdr().len() == n);
    assert(a.take(n) =~= s1.xdr());
    assert(b.take(n) =~= s2.xdr());
    match (s1, s2) {
        (Address::Account(x), Address::Account(y)) => {
            assert(s1.xdr().skip(12) =~= x@);
            assert(s2.xdr().skip(12) =~= y@);
            assert(x =~= y);
        },
        (Address::Contract(x), Address::Contract(y)) => {
            assert(s1.xdr().skip(8) =~= x@);
            assert(s2.xdr().skip(8) =~= y@);
            assert(x =~= y);
        },
        _ => {},
    }
    let c = a.skip(n);
    let e = b.skip(n);
    assert(c =~= be8(t1) + d1);
    assert(e =~= be8(t2) + d2);
    assert(c.take(8) =~= be8(t1));
    assert(e.take(8) =~= be8(t2));
    be8_injective(t1, t2);
    assert(d1 =~= c.skip(8));
    assert(d2 =~= e.skip(8));
}

fn push_framed(out: &mut Vec<u8>, data: &[u8])
    requires
        data@.len() <= u32::MAX,
    ensures
        final(out)@ == old(out)@ + framed(data@),
{
    push_be4(out, data.len() as u32);
    push_bytes(out, data);
    assert(out@ =~= old(out)@ + framed(data@));
}

/// Appends the encoding of one field, or refuses a field with a length that
/// does not fit its prefix.
fn push_field(out: &mut Vec<u8>, field: &CanonicalField) -> (ok: bool)
    ensures
        ok == field@.encodable(),
        ok ==> final(out)@ == old(out)@ + field@.encoding(),
{
    let ghost before = out@;
    match field {
        CanonicalField::Bytes(d) => {
            if d.len() > u32::MAX as usize {
                return false;
            }
            out.push(0);
            push_framed(out, d);
        },
        CanonicalField::U64(v) => {
            out.push(1);
            push_be4(out, 8);
            push_be8(out, *v);
        },
        CanonicalField::U32(v) => {
            out.push(2);
            push_be4(out, 4);
            push_be4(out, *v);
        },
        CanonicalField::Bool(b) => {
            out.push(3);
            push_be4(out, 1);
            out.push(if *b { 1 } else { 0 });
        },
        CanonicalField::Option(None) => {
            out.push(4);
        },
        CanonicalField::Option(Some(d)) => {
            if d.len() > u32::MAX as usize {
                return false;
            }
            out.push(5);
            push_framed(out, d);
        },
        CanonicalField::List(items) => {
            if items.len() > u32::MAX as usize {
                return false;
            }
            let ghost values = list_value(items@);
            out.push(6);
            push_be4(out, items.len() as u32);
            let ghost head = out@;
            assert(head =~= before + (seq![6u8] + be4(values.len() as u32)));
            let n: usize = items.len();
            let mut i: usize = 0;
            assert(framed_all(values.take(0)) =~= Seq::<u8>::empty());
            while i < n
                invariant
                    n == items@.len(),
                    values == list_value(items@),
                    0 <= i <= n,
                    out@ == head + framed_all(values.take(i as int)),
                    forall|j: int| 0 <= j < i ==> (#[trigger] values[j]).len() <= u32::MAX,
                    field@ == FieldValue::List(values),
                decreases n - i,
            {
                let item: &[u8] = items[i].as_slice();
                assert(values[i as int] == item@);
                if item.len() > u32::MAX as usize {
                    return false;
                }
                push_framed(out, item);
                proof {
                    assert(values.take(i + 1) =~= values.take(i as int).push(values[i as int]));
                    framed_all_push(values.take(i as int), values[i as int]);
                    assert(out@ =~= head + framed_all(values.take(i + 1)));
                }
                i = i + 1;
            }
            assert(values.take(n as int) =~= values);
        },
    }
    assert(out@ =~= before + field@.encoding());
    true
}

/// The hash of an ordered list of fields. A list or a byte string whose length
/// does not fit four bytes is refused.
pub fn compute_canonical_hash(fields: &[CanonicalField]) -> (r: Result<
    [u8; 32],
    ErrorCode,
>)
    requires
        all_encodable(field_values(fields@)) ==> canonical_input(field_values(fields@)).len()
            <= u32::MAX,
    ensures
        match r {
            Ok(h) => all_encodable(field_values(fields@)) && h@ == sha256_digest(
                canonical_input(field_values(fields@)),
            ),
            Err(e) => !all_encodable(field_values(fields@)) && e == ErrorCode::ValidationError,
        },
{
    let ghost values = field_values(fields@);
    let mut input: Vec<u8> = Vec::new();
    let n: usize = fields.len();
    let mut i: usize = 0;
    assert(canonical_input(values.take(0)) =~= Seq::<u8>::empty());
    while i < n
        invariant
            n == fields@.len(),
            values == field_values(fields@),
            0 <= i <= n,
            input@ == canonical_input(values.take(i as int)),
            forall|j: int| 0 <= j < i ==> (#[trigger] values[j]).encodable(),
        decreases n - i,
    {
        assert(values[i as int] == fields@[i as int]@);
        if !push_field(&mut input, &fields[i]) {
            return Err(ErrorCode::ValidationError);
        }
        proof {
            assert(values.take(i + 1) =~= values.take(i as int).push(values[i as int]));
            canonical_input_push(values.take(i as int), values[i as int]);
        }
        i = i + 1;
    }
    assert(values.take(n as int) =~= values);
    Ok(host_sha256(&input))
}

} // verus!
