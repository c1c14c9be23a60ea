//! Request correlation across services: a stable root identifier, the service
//! that started the request, a hop count and key-value baggage, carried in
//! headers.
use crate::text::{
    chars_of, decimal, decimal_reads_back, find_char, lowered, parse_u32, position, position_at,
    push_decimal, read_u32, same_text, text_less, text_lt, text_lt_total, text_lt_transitive,
    text_of, trimmed, trimmed_ends, trimmed_is_fixed,
};
use vstd::prelude::*;
use vstd::string::*;
use vstd::utf8::*;

verus! {

/// Header with the root correlation identifier.
pub const CORRELATION_ID_HEADER: &'static str = "X-Correlation-Id";

/// Header with the name of the originating service.
pub const ORIGIN_SERVICE_HEADER: &'static str = "X-Origin-Service";

/// Header with the number of hops.
pub const HOP_COUNT_HEADER: &'static str = "X-Hop-Count";

/// Header with the baggage, as `key=value` pairs separated by commas.
pub const BAGGAGE_HEADER: &'static str = "X-Baggage";

/// Why a context could not be read.
#[derive(Clone, Debug, PartialEq, Eq)]
pub enum CorrelationError {
    /// The correlation identifier is missing.
    MissingCorrelationId,
    /// The correlation identifier is not 32 lowercase hexadecimal digits.
    InvalidCorrelationId(String),
    /// The hop count is not a number.
    InvalidHopCount(String),
}

impl CorrelationError {
    /// The text of the message.
    pub open spec fn text(self) -> Seq<char> {
        match self {
            CorrelationError::MissingCorrelationId => "missing X-Correlation-Id header"@,
            CorrelationError::InvalidCorrelationId(v) => "invalid X-Correlation-Id value: '"@ + v@
                + "'"@,
            CorrelationError::InvalidHopCount(v) => "invalid X-Hop-Count value: '"@ + v@ + "'"@,
        }
    }

    /// A message for people.
    pub fn message(&self) -> (s: String)
        ensures
            s@ == self.text(),
    {
        match self {
            CorrelationError::MissingCorrelationId => "missing X-Correlation-Id header".to_owned(),
            CorrelationError::InvalidCorrelationId(v) => {
                let mut s: String = "invalid X-Correlation-Id value: '".to_owned();
                s.append(v.as_str());
                s.append("'");
                s
            },
            CorrelationError::InvalidHopCount(v) => {
                let mut s: String = "invalid X-Hop-Count value: '".to_owned();
                s.append(v.as_str());
                s.append("'");
                s
            },
        }
    }
}

/// The SHA-256 digest of `data`, as the `sha2` crate computes it.
pub uninterp spec fn sha2_digest(data: Seq<u8>) -> Seq<u8>;

/// Calls `sha2::Sha256::digest`: the result is the 32-byte digest, a function
/// of the bytes alone.
#[verifier::external_body]
fn sha2_sha256(data: &[u8]) -> (digest: [u8; 32])
    ensures
        digest@ == sha2_digest(data@),
{
    <sha2::Sha256 as sha2::Digest>::digest(data).into()
}

/// The lowercase hexadecimal digit for `v`.
pub open spec fn hex_digit(v: u8) -> char {
    if v < 10 {
        (('0' as u32) + v) as char
    } else {
        (('a' as u32) + v - 10) as char
    }
}

/// Two lowercase hexadecimal digits per byte, high half first.
pub open spec fn hex_text(bytes: Seq<u8>) -> Seq<char>
    decreases bytes.len(),
{
    if bytes.len() == 0 {
        Seq::empty()
    } else {
        hex_text(bytes.drop_last()).push(hex_digit((bytes.last() / 16) as u8)).push(
            hex_digit((bytes.last() % 16) as u8),
        )
    }
}

/// The hexadecimal digit for a value below 16.
pub fn hex_nibble(v: u8) -> (c: char)
    requires
        v < 16,
    ensures
        c == hex_digit(v),
{
    if v < 10 {
        (48u8 + v) as char
    } else {
        (87u8 + v) as char
    }
}

/// Appends two hexadecimal digits per byte.
pub fn push_hex(out: &mut String, bytes: &[u8])
    ensures
        final(out)@ == old(out)@ + hex_text(bytes@),
{
    let n: usize = bytes.len();
    let mut i: usize = 0;
    assert(out@ =~= old(out)@ + hex_text(bytes@.take(0)));
    while i < n
        invariant
            n == bytes@.len(),
            0 <= i <= n,
            out@ == old(out)@ + hex_text(bytes@.take(i as int)),
        decreases n - i,
    {
        out.push(hex_nibble(bytes[i] / 16));
        out.push(hex_nibble(bytes[i] % 16));
        proof {
            let next = bytes@.take(i + 1);
            assert(next.drop_last() =~= bytes@.take(i as int));
            assert(out@ =~= old(out)@ + hex_text(next));
        }
        i = i + 1;
    }
    assert(bytes@.take(n as int) =~= bytes@);
}

/// The correlation identifier that a digest gives: its first 16 bytes in
/// hexadecimal.
pub fn correlation_id_of_digest(digest: &[u8; 32]) -> (id: String)
    ensures
        id@ == hex_text(digest@.take(16)),
        valid_id(id@),
{
    let mut bytes: Vec<u8> = Vec::new();
    let mut i: usize = 0;
    while i < 16
        invariant
            0 <= i <= 16,
            bytes@ == digest@.take(i as int),
        decreases 16 - i,
    {
        bytes.push(digest[i]);
        assert(digest@.take(i + 1) =~= digest@.take(i as int).push(digest@[i as int]));
        i = i + 1;
    }
    let mut id: String = String::new();
    push_hex(&mut id, bytes.as_slice());
    proof {
        assert(id@ =~= hex_text(digest@.take(16)));
        hex_text_shape(digest@.take(16));
    }
    id
}

/// Hexadecimal text has two lowercase digits per byte.
pub proof fn hex_text_shape(bytes: Seq<u8>)
    ensures
        hex_text(bytes).len() == 2 * bytes.len(),
        forall|i: int| 0 <= i < hex_text(bytes).len() ==> is_hex(#[trigger] hex_text(bytes)[i]),
    decreases bytes.len(),
{
    if bytes.len() > 0 {
        hex_text_shape(bytes.drop_last());
    }
}

/// A lowercase hexadecimal digit.
pub open spec fn is_hex(c: char) -> bool {
    ('0' <= c <= '9') || ('a' <= c <= 'f')
}

/// A correlation identifier: exactly 32 lowercase hexadecimal digits.
pub open spec fn valid_id(s: Seq<char>) -> bool {
    s.len() == 32 && forall|i: int| 0 <= i < s.len() ==> is_hex(#[trigger] s[i])
}

/// The correlation identifier derived from a seed.
pub open spec fn derived_id(seed: Seq<char>) -> Seq<char> {
    hex_text(sha2_digest(encode_utf8(seed)).take(16))
}

/// Derives a correlation identifier from a seed; the same seed gives the same
/// identifier.
pub fn derive_correlation_id(seed: &str) -> (id: String)
    ensures
        id@ == derived_id(seed@),
        valid_id(id@),
{
    let digest: [u8; 32] = sha2_sha256(seed.as_bytes());
    correlation_id_of_digest(&digest)
}

/// Accepts exactly the valid identifiers.
pub fn validate_correlation_id(id: &str) -> (r: Result<(), CorrelationError>)
    ensures
        match r {
            Ok(_) => valid_id(id@),
            Err(e) => !valid_id(id@) && (e matches CorrelationError::InvalidCorrelationId(v) && v@
                == id@),
        },
{
    let chars: Vec<char> = chars_of(id);
    if chars.len() != 32 {
        return Err(CorrelationError::InvalidCorrelationId(id.to_owned()));
    }
    let mut i: usize = 0;
    while i < 32
        invariant
            chars@ == id@,
            chars@.len() == 32,
            0 <= i <= 32,
            forall|j: int| 0 <= j < i ==> is_hex(#[trigger] id@[j]),
        decreases 32 - i,
    {
        let c: char = chars[i];
        if !(('0' <= c && c <= '9') || ('a' <= c && c <= 'f')) {
            assert(!is_hex(id@[i as int]));
            return Err(CorrelationError::InvalidCorrelationId(id.to_owned()));
        }
        i = i + 1;
    }
    Ok(())
}

/// Baggage entries: keys with their values.
pub type Pairs = Seq<(Seq<char>, Seq<char>)>;

/// The characters of each entry.
pub open spec fn pairs_of(s: Seq<(String, String)>) -> Pairs {
    s.map_values(|p: (String, String)| (p.0@, p.1@))
}

/// Whether the keys are strictly increasing.
pub open spec fn sorted(s: Pairs) -> bool {
    forall|i: int, j: int| 0 <= i < j < s.len() ==> text_lt(#[trigger] s[i].0, #[trigger] s[j].0)
}

/// `s` with `k` bound to `v`, in key order.
pub open spec fn put(s: Pairs, k: Seq<char>, v: Seq<char>) -> Pairs
    decreases s.len(),
{
    if s.len() == 0 {
        seq![(k, v)]
    } else if s[0].0 == k {
        seq![(k, v)] + s.skip(1)
    } else if text_lt(k, s[0].0) {
        seq![(k, v)] + s
    } else {
        seq![s[0]] + put(s.skip(1), k, v)
    }
}

/// The value bound to `k`.
pub open spec fn lookup(s: Pairs, k: Seq<char>) -> Option<Seq<char>>
    decreases s.len(),
{
    if s.len() == 0 {
        None
    } else if s[0].0 == k {
        Some(s[0].1)
    } else {
        lookup(s.skip(1), k)
    }
}

proof fn put_after(s: Pairs, k: Seq<char>, v: Seq<char>, n: int)
    requires
        0 <= n <= s.len(),
        forall|j: int| 0 <= j < n ==> (#[trigger] s[j]).0 != k && !text_lt(k, s[j].0),
    ensures
        put(s, k, v) == s.take(n) + put(s.skip(n), k, v),
    decreases n,
{
    if n == 0 {
        assert(s.skip(0) =~= s);
        assert(s.take(0) + put(s, k, v) =~= put(s, k, v));
    } else {
        assert(s[0].0 != k && !text_lt(k, s[0].0));
        assert forall|j: int| 0 <= j < n - 1 implies (#[trigger] s.skip(1)[j]).0 != k && !text_lt(
            k,
            s.skip(1)[j].0,
        ) by {
            assert(s.skip(1)[j] == s[j + 1]);
        }
        put_after(s.skip(1), k, v, n - 1);
        assert(s.skip(1).skip(n - 1) =~= s.skip(n));
        assert(seq![s[0]] + (s.skip(1).take(n - 1) + put(s.skip(n), k, v)) =~= s.take(n) + put(
            s.skip(n),
            k,
            v,
        ));
    }
}

proof fn put_at_end(s: Pairs, k: Seq<char>, v: Seq<char>)
    requires
        forall|j: int| 0 <= j < s.len() ==> text_lt((#[trigger] s[j]).0, k),
    ensures
        put(s, k, v) == s.push((k, v)),
{
    assert forall|j: int| 0 <= j < s.len() implies (#[trigger] s[j]).0 != k && !text_lt(k, s[j].0) by {
        text_lt_total(s[j].0, k);
    }
    put_after(s, k, v, s.len() as int);
    assert(s.skip(s.len() as int) =~= Seq::<(Seq<char>, Seq<char>)>::empty());
    assert(put(s, k, v) =~= s.push((k, v)));
}

/// Binding a key keeps the keys in order.
pub proof fn put_keeps_order(s: Pairs, k: Seq<char>, v: Seq<char>)
    requires
        sorted(s),
    ensures
        sorted(put(s, k, v)),
        forall|i: int|
            0 <= i < put(s, k, v).len() ==> (#[trigger] put(s, k, v)[i]).0 == k || exists|j: int|
                0 <= j < s.len() && (#[trigger] s[j]).0 == put(s, k, v)[i].0,
    decreases s.len(),
{
    let r = put(s, k, v);
    if s.len() == 0 {
    } else if s[0].0 == k {
        assert forall|i: int, j: int| 0 <= i < j < r.len() implies text_lt(
            #[trigger] r[i].0,
            #[trigger] r[j].0,
        ) by {
            assert(s[i].0 == r[i].0 && s[j].0 == r[j].0);
        }
        assert forall|i: int| 0 <= i < r.len() implies (#[trigger] r[i]).0 == k || exists|j: int|
            0 <= j < s.len() && (#[trigger] s[j]).0 == r[i].0 by {
            assert(s[i].0 == r[i].0);
        }
    } else if text_lt(k, s[0].0) {
        assert forall|i: int, j: int| 0 <= i < j < r.len() implies text_lt(
            #[trigger] r[i].0,
            #[trigger] r[j].0,
        ) by {
            assert(s[j - 1] == r[j]);
            if i == 0 {
                if j > 1 {
                    assert(text_lt(s[0].0, s[j - 1].0));
                    text_lt_transitive(k, s[0].0, s[j - 1].0);
                }
            } else {
                assert(s[i - 1] == r[i]);
            }
        }
        assert forall|i: int| 0 <= i < r.len() implies (#[trigger] r[i]).0 == k || exists|j: int|
            0 <= j < s.len() && (#[trigger] s[j]).0 == r[i].0 by {
            if i > 0 {
                assert(s[i - 1].0 == r[i].0);
            }
        }
    } else {
        let t = s.skip(1);
        assert forall|i: int, j: int| 0 <= i < j < t.len() implies text_lt(
            #[trigger] t[i].0,
            #[trigger] t[j].0,
        ) by {
            assert(t[i] == s[i + 1] && t[j] == s[j + 1]);
        }
        put_keeps_order(t, k, v);
        let q = put(t, k, v);
        text_lt_total(k, s[0].0);
        assert forall|i: int, j: int| 0 <= i < j < r.len() implies text_lt(
            #[trigger] r[i].0,
            #[trigger] r[j].0,
        ) by {
            assert(r[j] == q[j - 1]);
            if i == 0 {
                if q[j - 1].0 != k {
                    let w = choose|w: int| 0 <= w < t.len() && (#[trigger] t[w]).0 == q[j - 1].0;
                    assert(t[w] == s[w + 1]);
                }
            } else {
                assert(r[i] == q[i - 1]);
            }
        }
        assert forall|i: int| 0 <= i < r.len() implies (#[trigger] r[i]).0 == k || exists|j: int|
            0 <= j < s.len() && (#[trigger] s[j]).0 == r[i].0 by {
            if i == 0 {
                assert(s[0].0 == r[0].0);
            } else {
                assert(r[i] == q[i - 1]);
                if q[i - 1].0 != k {
                    let w = choose|w: int| 0 <= w < t.len() && (#[trigger] t[w]).0 == q[i - 1].0;
                    assert(t[w] == s[w + 1]);
                    assert(s[w + 1].0 == r[i].0);
                }
            }
        }
    }
}

/// A bound key reads back the value bound last, and every other key is as
/// before.
pub proof fn lookup_of_put(s: Pairs, k: Seq<char>, v: Seq<char>, q: Seq<char>)
    ensures
        lookup(put(s, k, v), q) == (if q == k {
            Some(v)
        } else {
            lookup(s, q)
        }),
    decreases s.len(),
{
    let r = put(s, k, v);
    if s.len() == 0 {
        assert(r.skip(1) =~= Seq::<(Seq<char>, Seq<char>)>::empty());
        assert(lookup(r.skip(1), q) is None);
    } else if s[0].0 == k {
        assert(r.skip(1) =~= s.skip(1));
    } else if text_lt(k, s[0].0) {
        assert(r.skip(1) =~= s);
    } else {
        assert(r.skip(1) =~= put(s.skip(1), k, v));
        lookup_of_put(s.skip(1), k, v, q);
    }
}

/// What a context holds.
pub struct ContextView {
    pub id: Seq<char>,
    pub origin: Seq<char>,
    pub current: Seq<char>,
    pub hop: u32,
    pub baggage: Pairs,
}

/// The correlation context of one request at one service.
#[derive(Clone, Debug, PartialEq, Eq)]
pub struct CorrelationContext {
    correlation_id: String,
    origin_service: String,
    current_service: String,
    hop_count: u32,
    baggage: Vec<(String, String)>,
}

impl View for CorrelationContext {
    type V = ContextView;

    closed spec fn view(&self) -> ContextView {
        ContextView {
            id: self.correlation_id@,
            origin: self.origin_service@,
            current: self.current_service@,
            hop: self.hop_count,
            baggage: pairs_of(self.baggage@),
        }
    }
}

impl ContextView {
    /// The identifier is valid and the baggage is in key order.
    pub open spec fn well_formed(self) -> bool {
        valid_id(self.id) && sorted(self.baggage)
    }
}

fn put_pair(list: &mut Vec<(String, String)>, key: String, value: String)
    ensures
        pairs_of(final(list)@) == put(pairs_of(old(list)@), key@, value@),
{
    let ghost before = pairs_of(list@);
    let n: usize = list.len();
    let mut i: usize = 0;
    while i < n
        invariant
            n == list@.len(),
            0 <= i <= n,
            before == pairs_of(list@),
            list@ == old(list)@,
            forall|j: int|
                0 <= j < i ==> (#[trigger] before[j]).0 != key@ && !text_lt(key@, before[j].0),
        decreases n - i,
    {
        assert(before[i as int].0 == list@[i as int].0@);
        if list[i].0 == key {
            proof {
                put_after(before, key@, value@, i as int);
                let rest = before.skip(i as int);
                assert(rest[0] == before[i as int]);
                assert(rest.skip(1) =~= before.skip(i + 1));
            }
            let ghost k = key@;
            let ghost v = value@;
            list.set(i, (key, value));
            assert(pairs_of(list@) =~= before.take(i as int) + (seq![(k, v)] + before.skip(i + 1)));
            return;
        }
        if text_less(key.as_str(), list[i].0.as_str()) {
            proof {
                put_after(before, key@, value@, i as int);
                let rest = before.skip(i as int);
                assert(rest[0] == before[i as int]);
            }
            let ghost k = key@;
            let ghost v = value@;
            list.insert(i, (key, value));
            assert(pairs_of(list@) =~= before.take(i as int) + (seq![(k, v)] + before.skip(
                i as int,
            )));
            return;
        }
        i = i + 1;
    }
    proof {
        put_after(before, key@, value@, n as int);
        assert(before.skip(n as int) =~= Seq::<(Seq<char>, Seq<char>)>::empty());
    }
    let ghost k = key@;
    let ghost v = value@;
    list.push((key, value));
    assert(pairs_of(list@) =~= before.take(n as int) + seq![(k, v)]);
}

fn copy_pairs(list: &Vec<(String, String)>) -> (r: Vec<(String, String)>)
    ensures
        pairs_of(r@) == pairs_of(list@),
{
    let n: usize = list.len();
    let mut out: Vec<(String, String)> = Vec::new();
    let mut i: usize = 0;
    while i < n
        invariant
            n == list@.len(),
            0 <= i <= n,
            out@.len() == i,
            forall|j: int|
                0 <= j < i ==> (#[trigger] out@[j]).0@ == list@[j].0@ && out@[j].1@ == list@[j].1@,
        decreases n - i,
    {
        out.push((list[i].0.clone(), list[i].1.clone()));
        i = i + 1;
    }
    assert(pairs_of(out@) =~= pairs_of(list@));
    out
}

/// One `key=value` pair.
pub open spec fn pair_text(p: (Seq<char>, Seq<char>)) -> Seq<char> {
    p.0 + seq!['='] + p.1
}

/// All pairs, separated by commas.
pub open spec fn joined(s: Pairs) -> Seq<char>
    decreases s.len(),
{
    if s.len() == 0 {
        Seq::empty()
    } else if s.len() == 1 {
        pair_text(s[0])
    } else {
        joined(s.drop_last()) + seq![','] + pair_text(s.last())
    }
}

/// `s` with the pair that `part` spells, if it spells one with a key.
pub open spec fn with_part(s: Pairs, part: Seq<char>) -> Pairs {
    let pair = trimmed(part);
    let at = position(pair, '=') as int;
    if at < pair.len() {
        let k = trimmed(pair.take(at));
        let v = trimmed(pair.skip(at + 1));
        if k.len() > 0 {
            put(s, k, v)
        } else {
            s
        }
    } else {
        s
    }
}

/// `s` with every pair that the comma-separated `text` spells, in order.
pub open spec fn with_parts(s: Pairs, text: Seq<char>) -> Pairs
    decreases text.len(),
{
    let at = position(text, ',') as int;
    if at < text.len() {
        with_parts(with_part(s, text.take(at)), text.skip(at + 1))
    } else {
        with_part(s, text)
    }
}

/// What has been read of a header list.
pub struct HeaderState {
    pub id: Option<Seq<char>>,
    pub origin: Option<Seq<char>>,
    pub hop: u32,
    pub baggage: Pairs,
}

/// Whether `name` names the header `header`, in any case.
pub open spec fn named(name: Seq<char>, header: Seq<char>) -> bool {
    lowered(name) == lowered(header)
}

/// What has been read once one more header is taken in, or the hop count that
/// is not a number.
pub open spec fn read_header(
    st: HeaderState,
    name: Seq<char>,
    value: Seq<char>,
) -> Result<HeaderState, Seq<char>> {
    if named(name, CORRELATION_ID_HEADER@) {
        Ok(HeaderState { id: Some(value), ..st })
    } else if named(name, ORIGIN_SERVICE_HEADER@) {
        Ok(HeaderState { origin: Some(value), ..st })
    } else if named(name, HOP_COUNT_HEADER@) {
        match read_u32(value) {
            Some(n) => Ok(HeaderState { hop: n, ..st }),
            None => Err(value),
        }
    } else if named(name, BAGGAGE_HEADER@) {
        Ok(HeaderState { baggage: with_parts(st.baggage, value), ..st })
    } else {
        Ok(st)
    }
}

/// What the headers say, read in order; a later header of a name counts in
/// place of an earlier one, and baggage adds up.
pub open spec fn read_headers(headers: Pairs) -> Result<HeaderState, Seq<char>>
    decreases headers.len(),
{
    if headers.len() == 0 {
        Ok(HeaderState { id: None, origin: None, hop: 0, baggage: Seq::empty() })
    } else {
        match read_headers(headers.drop_last()) {
            Ok(st) => read_header(st, headers.last().0, headers.last().1),
            Err(e) => Err(e),
        }
    }
}

/// The headers that carry a context.
pub open spec fn header_pairs(c: ContextView) -> Pairs {
    let base = seq![
        (CORRELATION_ID_HEADER@, c.id),
        (ORIGIN_SERVICE_HEADER@, c.origin),
        (HOP_COUNT_HEADER@, decimal(c.hop as nat)),
    ];
    if c.baggage.len() == 0 {
        base
    } else {
        base.push((BAGGAGE_HEADER@, joined(c.baggage)))
    }
}

proof fn read_headers_extends(headers: Pairs, n: int, e: Seq<char>)
    requires
        0 <= n <= headers.len(),
        read_headers(headers.take(n)) == Err::<HeaderState, Seq<char>>(e),
    ensures
        read_headers(headers) == Err::<HeaderState, Seq<char>>(e),
    decreases headers.len(),
{
    if n < headers.len() {
        assert(headers.drop_last().take(n) =~= headers.take(n));
        read_headers_extends(headers.drop_last(), n, e);
    } else {
        assert(headers.take(n) =~= headers);
    }
}

impl CorrelationContext {
    /// A root context for the originating service, with the identifier derived
    /// from `seed`.
    pub fn new(originating_service: &str, seed: &str) -> (c: Self)
        ensures
            c@ == (ContextView {
                id: derived_id(seed@),
                origin: originating_service@,
                current: originating_service@,
                hop: 0,
                baggage: Seq::empty(),
            }),
            c@.well_formed(),
    {
        let c = CorrelationContext {
            correlation_id: derive_correlation_id(seed),
            origin_service: originating_service.to_owned(),
            current_service: originating_service.to_owned(),
            hop_count: 0,
            baggage: Vec::new(),
        };
        assert(c@.baggage =~= Seq::empty());
        c
    }

    /// A root context with a given identifier, which must be valid.
    pub fn with_id(originating_service: &str, id: &str) -> (r: Result<Self, CorrelationError>)
        ensures
            match r {
                Ok(c) => valid_id(id@) && c@.well_formed() && c@ == (ContextView {
                    id: id@,
                    origin: originating_service@,
                    current: originating_service@,
                    hop: 0,
                    baggage: Seq::empty(),
                }),
                Err(e) => !valid_id(id@) && (e matches CorrelationError::InvalidCorrelationId(v)
                    && v@ == id@),
            },
    {
        match validate_correlation_id(id) {
            Ok(_) => {
                let c = CorrelationContext {
                    correlation_id: id.to_owned(),
                    origin_service: originating_service.to_owned(),
                    current_service: originating_service.to_owned(),
                    hop_count: 0,
                    baggage: Vec::new(),
                };
                assert(c@.baggage =~= Seq::empty());
                Ok(c)
            },
            Err(e) => Err(e),
        }
    }

    /// The root correlation identifier.
    pub fn correlation_id(&self) -> (s: &str)
        ensures
            s@ == self@.id,
    {
        self.correlation_id.as_str()
    }

    /// The originating service.
    pub fn origin_service(&self) -> (s: &str)
        ensures
            s@ == self@.origin,
    {
        self.origin_service.as_str()
    }

    /// The service at this hop.
    pub fn current_service(&self) -> (s: &str)
        ensures
            s@ == self@.current,
    {
        self.current_service.as_str()
    }

    /// The number of hops so far.
    pub fn hop_count(&self) -> (n: u32)
        ensures
            n == self@.hop,
    {
        self.hop_count
    }

    /// The baggage value for `key`.
    pub fn baggage(&self, key: &str) -> (r: Option<&str>)
        ensures
            match r {
                Some(v) => lookup(self@.baggage, key@) == Some(v@),
                None => lookup(self@.baggage, key@) is None,
            },
    {
        let n: usize = self.baggage.len();
        let mut i: usize = 0;
        let ghost all = self@.baggage;
        assert(all.skip(0) =~= all);
        while i < n
            invariant
                n == self.baggage@.len(),
                0 <= i <= n,
                all == self@.baggage,
                lookup(all, key@) == lookup(all.skip(i as int), key@),
            decreases n - i,
        {
            assert(all[i as int] == (self.baggage@[i as int].0@, self.baggage@[i as int].1@));
            assert(all.skip(i as int)[0] == all[i as int]);
            if same_text(self.baggage[i].0.as_str(), key) {
                return Some(self.baggage[i].1.as_str());
            }
            assert(all.skip(i as int).skip(1) =~= all.skip(i + 1));
            i = i + 1;
        }
        assert(all.skip(n as int).len() == 0);
        None
    }

    /// Adds the identifier to `links` unless it is there already.
    pub fn add_correlation_link(&self, links: &mut Vec<String>)
        ensures
            (exists|i: int| 0 <= i < old(links)@.len() && (#[trigger] old(links)@[i])@ == self@.id)
                ==> final(links)@ == old(links)@,
            !(exists|i: int| 0 <= i < old(links)@.len() && (#[trigger] old(links)@[i])@ == self@.id)
                ==> {
                &&& final(links)@.len() == old(links)@.len() + 1
                &&& final(links)@.drop_last() == old(links)@
                &&& final(links)@.last()@ == self@.id
            },
    {
        let n: usize = links.len();
        let mut i: usize = 0;
        while i < n
            invariant
                n == links@.len(),
                links@ == old(links)@,
                0 <= i <= n,
                forall|j: int| 0 <= j < i ==> (#[trigger] links@[j])@ != self@.id,
            decreases n - i,
        {
            if links[i] == self.correlation_id {
                return;
            }
            i = i + 1;
        }
        links.push(self.correlation_id.clone());
        assert(links@.drop_last() =~= old(links)@);
    }

    /// The context with `key` bound to `value` in its baggage.
    pub fn set_baggage(self, key: &str, value: &str) -> (c: Self)
        ensures
            c@ == (ContextView { baggage: put(self@.baggage, key@, value@), ..self@ }),
            self@.well_formed() ==> c@.well_formed(),
    {
        let mut list: Vec<(String, String)> = copy_pairs(&self.baggage);
        put_pair(&mut list, key.to_owned(), value.to_owned());
        proof {
            if sorted(self@.baggage) {
                put_keeps_order(self@.baggage, key@, value@);
            }
        }
        CorrelationContext {
            correlation_id: self.correlation_id,
            origin_service: self.origin_service,
            current_service: self.current_service,
            hop_count: self.hop_count,
            baggage: list,
        }
    }

    /// The context for the next service: one hop more, everything else kept.
    pub fn next_hop(&self, next_service: &str) -> (c: Self)
        ensures
            c@ == (ContextView {
                current: next_service@,
                hop: if self@.hop < u32::MAX {
                    (self@.hop + 1) as u32
                } else {
                    u32::MAX
                },
                ..self@
            }),
    {
        CorrelationContext {
            correlation_id: self.correlation_id.clone(),
            origin_service: self.origin_service.clone(),
            current_service: next_service.to_owned(),
            hop_count: if self.hop_count < u32::MAX {
                self.hop_count + 1
            } else {
                u32::MAX
            },
            baggage: copy_pairs(&self.baggage),
        }
    }

    fn baggage_text(&self) -> (s: String)
        ensures
            s@ == joined(self@.baggage),
    {
        let n: usize = self.baggage.len();
        let mut s: String = String::new();
        let ghost all = self@.baggage;
        assert(joined(all.take(0)) =~= Seq::<char>::empty());
        let mut i: usize = 0;
        while i < n
            invariant
                n == self.baggage@.len(),
                all == self@.baggage,
                0 <= i <= n,
                s@ == joined(all.take(i as int)),
            decreases n - i,
        {
            assert(all[i as int] == (self.baggage@[i as int].0@, self.baggage@[i as int].1@));
            let ghost before = s@;
            if i > 0 {
                s.push(',');
            }
            let ghost mid = s@;
            s.append(self.baggage[i].0.as_str());
            s.push('=');
            s.append(self.baggage[i].1.as_str());
            proof {
                let next = all.take(i + 1);
                assert(next.drop_last() =~= all.take(i as int));
                assert(s@ =~= mid + pair_text(all[i as int]));
                assert(s@ =~= joined(next));
            }
            i = i + 1;
        }
        assert(all.take(n as int) =~= all);
        s
    }

    /// The headers that carry this context.
    pub fn to_headers(&self) -> (h: Vec<(String, String)>)
        ensures
            pairs_of(h@) == header_pairs(self@),
    {
        let mut headers: Vec<(String, String)> = Vec::new();
        headers.push((CORRELATION_ID_HEADER.to_owned(), self.correlation_id.clone()));
        headers.push((ORIGIN_SERVICE_HEADER.to_owned(), self.origin_service.clone()));
        let mut hops: String = String::new();
        push_decimal(&mut hops, self.hop_count as u64);
        assert(hops@ =~= decimal(self.hop_count as nat));
        headers.push((HOP_COUNT_HEADER.to_owned(), hops));
        if self.baggage.len() > 0 {
            headers.push((BAGGAGE_HEADER.to_owned(), self.baggage_text()));
        }
        assert(pairs_of(headers@) =~= header_pairs(self@));
        headers
    }

    fn take_part(chars: &Vec<char>, from: usize, to: usize, baggage: &mut Vec<(String, String)>)
        requires
            from <= to <= chars@.len(),
        ensures
            pairs_of(final(baggage)@) == with_part(
                pairs_of(old(baggage)@),
                chars@.subrange(from as int, to as int),
            ),
    {
        let part: String = text_of(chars, from, to);
        let pair: Vec<char> = chars_of(part.as_str().trim());
        let n: usize = pair.len();
        assert(pair@.subrange(0, n as int) =~= pair@);
        let at: usize = find_char(&pair, 0, n, '=');
        if at < n {
            let left: String = text_of(&pair, 0, at);
            let right: String = text_of(&pair, at + 1, n);
            assert(left@ =~= pair@.take(at as int));
            assert(right@ =~= pair@.skip(at + 1));
            let k: &str = left.as_str().trim();
            let v: &str = right.as_str().trim();
            if !k.is_empty() {
                put_pair(baggage, k.to_owned(), v.to_owned());
            }
        }
    }

    fn take_parts(value: &str, baggage: &mut Vec<(String, String)>)
        ensures
            pairs_of(final(baggage)@) == with_parts(pairs_of(old(baggage)@), value@),
    {
        let chars: Vec<char> = chars_of(value);
        let n: usize = chars.len();
        let ghost all = value@;
        let mut from: usize = 0;
        let mut more = true;
        assert(all.skip(0) =~= all);
        while more
            invariant
                chars@ == all,
                all == value@,
                n == all.len(),
                from <= n,
                more ==> with_parts(pairs_of(old(baggage)@), all) == with_parts(
                    pairs_of(baggage@),
                    all.skip(from as int),
                ),
                !more ==> with_parts(pairs_of(old(baggage)@), all) == pairs_of(baggage@),
            decreases n - from, (if more { 1int } else { 0int }),
        {
            let to: usize = find_char(&chars, from, n, ',');
            let ghost rest = all.skip(from as int);
            assert(chars@.subrange(from as int, n as int) =~= rest);
            assert(chars@.subrange(from as int, to as int) =~= rest.take(to - from));
            if to < n {
                CorrelationContext::take_part(&chars, from, to, baggage);
                assert(rest.skip(to - from + 1) =~= all.skip(to + 1));
                from = to + 1;
            } else {
                assert(rest.take(to - from) =~= rest);
                CorrelationContext::take_part(&chars, from, n, baggage);
                more = false;
            }
        }
    }

    /// Reads a context from headers. Names are matched in any case. The
    /// identifier must be there and valid, and a hop count must be a number.
    pub fn from_headers(headers: &[(String, String)]) -> (r: Result<Self, CorrelationError>)
        ensures
            match read_headers(pairs_of(headers@)) {
                Err(text) => r matches Err(CorrelationError::InvalidHopCount(v)) && v@ == text,
                Ok(st) => match st.id {
                    None => r matches Err(CorrelationError::MissingCorrelationId),
                    Some(id) => if !valid_id(id) {
                        r matches Err(CorrelationError::InvalidCorrelationId(v)) && v@ == id
                    } else {
                        r is Ok && r->Ok_0@ == (ContextView {
                            id,
                            origin: match st.origin {
                                Some(o) => o,
                                None => Seq::empty(),
                            },
                            current: match st.origin {
                                Some(o) => o,
                                None => Seq::empty(),
                            },
                            hop: st.hop,
                            baggage: st.baggage,
                        })
                    },
                },
            },
    {
        let mut correlation_id: Option<String> = None;
        let mut origin_service: Option<String> = None;
        let mut hop_count: u32 = 0;
        let mut baggage: Vec<(String, String)> = Vec::new();
        let n: usize = headers.len();
        let ghost all = pairs_of(headers@);
        let mut i: usize = 0;
        assert(all.take(0).len() == 0);
        assert(pairs_of(baggage@) =~= Seq::empty());
        while i < n
            invariant
                n == headers@.len(),
                all == pairs_of(headers@),
                0 <= i <= n,
                read_headers(all.take(i as int)) == Ok::<HeaderState, Seq<char>>(
                    HeaderState {
                        id: match correlation_id {
                            Some(s) => Some(s@),
                            None => None,
                        },
                        origin: match origin_service {
                            Some(s) => Some(s@),
                            None => None,
                        },
                        hop: hop_count,
                        baggage: pairs_of(baggage@),
                    },
                ),
            decreases n - i,
        {
            let name: &str = headers[i].0.as_str();
            let value: &String = &headers[i].1;
            proof {
                let next = all.take(i + 1);
                assert(next.drop_last() =~= all.take(i as int));
                assert(next.last() == (name@, value@));
            }
            if name.eq_ignore_ascii_case(CORRELATION_ID_HEADER) {
                correlation_id = Some(value.clone());
            } else if name.eq_ignore_ascii_case(ORIGIN_SERVICE_HEADER) {
                origin_service = Some(value.clone());
            } else if name.eq_ignore_ascii_case(HOP_COUNT_HEADER) {
                match parse_u32(value.as_str()) {
                    Some(h) => {
                        hop_count = h;
                    },
                    None => {
                        proof {
                            read_headers_extends(all, i + 1, value@);
                        }
                        return Err(CorrelationError::InvalidHopCount(value.clone()));
                    },
                }
            } else if name.eq_ignore_ascii_case(BAGGAGE_HEADER) {
                CorrelationContext::take_parts(value.as_str(), &mut baggage);
            }
            i = i + 1;
        }
        assert(all.take(n as int) =~= all);
        match correlation_id {
            None => Err(CorrelationError::MissingCorrelationId),
            Some(id) => {
                match validate_correlation_id(id.as_str()) {
                    Err(e) => Err(e),
                    Ok(_) => {
                        let origin: String = match origin_service {
                            Some(o) => o,
                            None => String::new(),
                        };
                        Ok(
                            CorrelationContext {
                                current_service: origin.clone(),
                                origin_service: origin,
                                correlation_id: id,
                                hop_count,
                                baggage,
                            },
                        )
                    },
                }
            },
        }
    }

    /// A summary for log lines.
    pub fn log_fields(&self) -> (s: String)
        ensures
            s@ == "corr="@ + self@.id + " origin="@ + self@.origin + " hop="@ + decimal(
                self@.hop as nat,
            ),
    {
        let mut s: String = "corr=".to_owned();
        s.append(self.correlation_id.as_str());
        s.append(" origin=");
        s.append(self.origin_service.as_str());
        s.append(" hop=");
        push_decimal(&mut s, self.hop_count as u64);
        s
    }
}

/// Whether an entry survives the wire format: a trimmed key that is not empty
/// and a trimmed value, neither with a comma, the key without an equals sign.
pub open spec fn portable(p: (Seq<char>, Seq<char>)) -> bool {
    &&& p.0.len() > 0
    &&& trimmed(p.0) == p.0
    &&& trimmed(p.1) == p.1
    &&& !p.0.contains(',')
    &&& !p.0.contains('=')
    &&& !p.1.contains(',')
}

proof fn portable_part(s: Pairs, p: (Seq<char>, Seq<char>))
    requires
        portable(p),
    ensures
        with_part(s, pair_text(p)) == put(s, p.0, p.1),
        !pair_text(p).contains(','),
{
    let t = pair_text(p);
    let n = p.0.len() as int;
    trimmed_ends(p.0);
    assert(t[0] == p.0[0]);
    if p.1.len() > 0 {
        trimmed_ends(p.1);
        assert(t.last() == p.1.last());
    } else {
        assert(t.last() == '=');
    }
    trimmed_is_fixed(t);
    assert(t[n] == '=');
    assert forall|j: int| 0 <= j < n implies t[j] != '=' by {
        assert(p.0.contains(p.0[j]));
    }
    position_at(t, '=', n);
    assert(t.take(n) =~= p.0);
    assert(t.skip(n + 1) =~= p.1);
    assert forall|j: int| 0 <= j < t.len() implies t[j] != ',' by {
        if j < n {
            assert(p.0.contains(p.0[j]));
        } else if j > n {
            assert(p.1.contains(p.1[j - n - 1]));
        }
    }
}

proof fn with_parts_append(s: Pairs, a: Seq<char>, b: Seq<char>)
    requires
        !b.contains(','),
    ensures
        with_parts(s, a + seq![','] + b) == with_part(with_parts(s, a), b),
    decreases a.len(),
{
    let t = a + seq![','] + b;
    let at = position(a, ',') as int;
    position_bounds(a, ',');
    if at < a.len() {
        assert forall|j: int| 0 <= j < at implies t[j] != ',' by {
            assert(t[j] == a[j]);
        }
        position_at(t, ',', at);
        assert(t.take(at) =~= a.take(at));
        assert(t.skip(at + 1) =~= a.skip(at + 1) + seq![','] + b);
        with_parts_append(with_part(s, a.take(at)), a.skip(at + 1), b);
        assert(with_parts(s, a) == with_parts(with_part(s, a.take(at)), a.skip(at + 1)));
    } else {
        assert forall|j: int| 0 <= j < a.len() implies t[j] != ',' by {
            assert(t[j] == a[j]);
        }
        position_at(t, ',', a.len() as int);
        assert(t.take(a.len() as int) =~= a);
        assert(t.skip(a.len() as int + 1) =~= b);
        position_bounds(b, ',');
        assert(position(b, ',') == b.len()) by {
            if position(b, ',') < b.len() {
                assert(b.contains(b[position(b, ',') as int]));
            }
        }
        assert(with_parts(s, a) == with_part(s, a));
        assert(with_parts(with_part(s, a), b) == with_part(with_part(s, a), b));
    }
}

proof fn position_bounds(s: Seq<char>, c: char)
    ensures
        position(s, c) <= s.len(),
        position(s, c) < s.len() ==> s[position(s, c) as int] == c,
        forall|j: int| 0 <= j < position(s, c) ==> s[j] != c,
    decreases s.len(),
{
    if s.len() > 0 && s[0] != c {
        let t = s.skip(1);
        position_bounds(t, c);
        assert forall|j: int| 0 <= j < position(s, c) implies s[j] != c by {
            if j > 0 {
                assert(s[j] == t[j - 1]);
            }
        }
    }
}

proof fn joined_reads_back(s: Pairs)
    requires
        sorted(s),
        s.len() > 0,
        forall|i: int| 0 <= i < s.len() ==> portable(#[trigger] s[i]),
    ensures
        with_parts(Seq::empty(), joined(s)) == s,
    decreases s.len(),
{
    let last = s.last();
    assert(portable(s[s.len() - 1]));
    if s.len() == 1 {
        portable_part(Seq::empty(), last);
        let t = pair_text(last);
        position_bounds(t, ',');
        assert(position(t, ',') == t.len()) by {
            if position(t, ',') < t.len() {
                assert(t.contains(t[position(t, ',') as int]));
            }
        }
        put_at_end(Seq::empty(), last.0, last.1);
        assert(s =~= Seq::empty().push(last));
    } else {
        let init = s.drop_last();
        assert forall|i: int| 0 <= i < init.len() implies portable(#[trigger] init[i]) by {
            assert(init[i] == s[i]);
        }
        assert forall|i: int, j: int| 0 <= i < j < init.len() implies text_lt(
            #[trigger] init[i].0,
            #[trigger] init[j].0,
        ) by {
            assert(init[i] == s[i] && init[j] == s[j]);
        }
        joined_reads_back(init);
        portable_part(init, last);
        with_parts_append(Seq::empty(), joined(init), pair_text(last));
        assert forall|j: int| 0 <= j < init.len() implies text_lt((#[trigger] init[j]).0, last.0) by {
            assert(init[j] == s[j]);
            assert(text_lt(s[j].0, s[s.len() - 1].0));
        }
        put_at_end(init, last.0, last.1);
        assert(init.push(last) =~= s);
    }
}

proof fn header_names_differ()
    ensures
        !named(ORIGIN_SERVICE_HEADER@, CORRELATION_ID_HEADER@),
        !named(HOP_COUNT_HEADER@, CORRELATION_ID_HEADER@),
        !named(HOP_COUNT_HEADER@, ORIGIN_SERVICE_HEADER@),
        !named(BAGGAGE_HEADER@, CORRELATION_ID_HEADER@),
        !named(BAGGAGE_HEADER@, ORIGIN_SERVICE_HEADER@),
        !named(BAGGAGE_HEADER@, HOP_COUNT_HEADER@),
{
    reveal_strlit("X-Correlation-Id");
    reveal_strlit("X-Origin-Service");
    reveal_strlit("X-Hop-Count");
    reveal_strlit("X-Baggage");
    assert(lowered(CORRELATION_ID_HEADER@)[2] == 'c');
    assert(lowered(ORIGIN_SERVICE_HEADER@)[2] == 'o');
    assert(lowered(HOP_COUNT_HEADER@)[2] == 'h');
    assert(lowered(BAGGAGE_HEADER@)[2] == 'b');
}

/// Reading the headers of a context gives back its identifier, origin, hop
/// count and baggage. Entries that the wire format cannot carry unchanged are
/// left out: those with a comma, with an equals sign in the key, with an empty
/// key, or with white space at an end.
pub proof fn headers_read_back(c: ContextView)
    requires
        c.well_formed(),
        forall|i: int| 0 <= i < c.baggage.len() ==> portable(#[trigger] c.baggage[i]),
    ensures
        read_headers(header_pairs(c)) == Ok::<HeaderState, Seq<char>>(
            HeaderState { id: Some(c.id), origin: Some(c.origin), hop: c.hop, baggage: c.baggage },
        ),
{
    header_names_differ();
    decimal_reads_back(c.hop);
    let h = header_pairs(c);
    let h0 = h.take(0);
    let h1 = h.take(1);
    let h2 = h.take(2);
    let h3 = h.take(3);
    assert(h1.drop_last() =~= h0);
    assert(h2.drop_last() =~= h1);
    assert(h3.drop_last() =~= h2);
    assert(h0.len() == 0);
    let s0 = HeaderState { id: None, origin: None, hop: 0, baggage: Seq::empty() };
    assert(read_headers(h0) == Ok::<HeaderState, Seq<char>>(s0));
    let s1 = HeaderState { id: Some(c.id), ..s0 };
    assert(read_headers(h1) == Ok::<HeaderState, Seq<char>>(s1));
    let s2 = HeaderState { origin: Some(c.origin), ..s1 };
    assert(read_headers(h2) == Ok::<HeaderState, Seq<char>>(s2));
    let s3 = HeaderState { hop: c.hop, ..s2 };
    assert(read_headers(h3) == Ok::<HeaderState, Seq<char>>(s3));
    if c.baggage.len() == 0 {
        assert(h3 =~= h);
        assert(c.baggage =~= Seq::empty());
    } else {
        assert(h.drop_last() =~= h3);
        joined_reads_back(c.baggage);
    }
}

} // verus!
