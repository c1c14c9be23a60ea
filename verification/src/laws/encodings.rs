//! Laws of encodings, hash inputs and correlation headers.
use crate::address::Address;
use crate::contract::keys::{padding, text_xdr, StorageKey};
use crate::deterministic_hash::{
    canonical_input, framed, framed_all, payload_accepted, payload_input, FieldValue,
    ATTESTATION_PAYLOAD_DOMAIN,
};
use crate::distributed_correlation::{
    hex_digit, hex_text, hex_text_shape, is_hex, lookup, lookup_of_put, named, pair_text, portable,
    put, read_header, valid_id, with_part, HeaderState, Pairs,
};
use crate::encoding::{be4, be8};
use crate::text::{decimal, digit, lower, lowered, numeral_value, read_u32, upper, uppered};
use vstd::prelude::*;
use vstd::utf8::encode_utf8;

verus! {

/// The bytes of a number spell it with the most significant one first.
pub proof fn bytes_spell_their_number(n: u32, m: u64)
    ensures
        be4(n).len() == 4,
        be4(n)[0] * 0x100_0000 + be4(n)[1] * 0x1_0000 + be4(n)[2] * 0x100 + be4(n)[3] == n,
        be8(m).len() == 8,
        be8(m).take(4) == be4((m / 0x1_0000_0000) as u32),
        be8(m).skip(4) == be4((m % 0x1_0000_0000) as u32),
{
    assert((n / 0x100_0000) as u8 == n / 0x100_0000);
    assert(((n / 0x1_0000) % 0x100) as u8 == (n / 0x1_0000) % 0x100);
    assert(((n / 0x100) % 0x100) as u8 == (n / 0x100) % 0x100);
    assert((n % 0x100) as u8 == n % 0x100);
    assert(be8(m).take(4) =~= be4((m / 0x1_0000_0000) as u32));
    assert(be8(m).skip(4) =~= be4((m % 0x1_0000_0000) as u32));
}

/// A segment stands behind its length, and segments follow one another.
pub proof fn segments_stand_behind_their_length(d: Seq<u8>, a: Seq<Seq<u8>>, b: Seq<Seq<u8>>)
    requires
        d.len() <= u32::MAX,
    ensures
        framed(d).len() == d.len() + 4,
        framed(d).take(4) == be4(d.len() as u32),
        framed(d).skip(4) == d,
        framed_all(seq![d]) == framed(d),
        framed_all(a + b) == framed_all(a) + framed_all(b),
    decreases a.len(),
{
    assert(framed(d).take(4) =~= be4(d.len() as u32));
    assert(framed(d).skip(4) =~= d);
    assert(seq![d].skip(1) =~= Seq::<Seq<u8>>::empty());
    assert(framed_all(seq![d].skip(1)) =~= Seq::<u8>::empty());
    assert(framed_all(seq![d]) =~= framed(d));
    if a.len() == 0 {
        assert(a + b =~= b);
        assert(framed_all(a) + framed_all(b) =~= framed_all(b));
    } else {
        segments_stand_behind_their_length(d, a.skip(1), b);
        assert((a + b).skip(1) =~= a.skip(1) + b);
        assert(framed_all(a + b) =~= framed_all(a) + framed_all(b));
    }
}

/// The domain prefix of payloads is the name of the format in ASCII.
pub proof fn the_domain_is_a_name(i: int)
    requires
        0 <= i < 24,
    ensures
        "anchorkit_attestation_v1"@.len() == 24,
        ATTESTATION_PAYLOAD_DOMAIN@[i] as int == "anchorkit_attestation_v1"@[i] as int,
{
    reveal_strlit("anchorkit_attestation_v1");
}

/// The hashed bytes of a payload: the prefix, the subject, eight bytes of time and
/// then the data as they are. Payloads of one to 4096 bytes are accepted.
pub proof fn payloads_are_laid_out(subject: Address, timestamp: u64, data: Seq<u8>)
    ensures
        ({
            let all = payload_input(subject, timestamp, data);
            let n = subject.xdr().len() as int;
            &&& all.len() == 24 + n + 8 + data.len()
            &&& all.take(24) == ATTESTATION_PAYLOAD_DOMAIN@
            &&& all.subrange(24, 24 + n) == subject.xdr()
            &&& all.subrange(24 + n, 32 + n) == be8(timestamp)
            &&& all.skip(32 + n) == data
        }),
        payload_accepted(data) <==> 1 <= data.len() <= 4096,
{
    let all = payload_input(subject, timestamp, data);
    let n = subject.xdr().len() as int;
    assert(ATTESTATION_PAYLOAD_DOMAIN@.len() == 24);
    assert(all.take(24) =~= ATTESTATION_PAYLOAD_DOMAIN@);
    assert(all.subrange(24, 24 + n) =~= subject.xdr());
    assert(all.subrange(24 + n, 32 + n) =~= be8(timestamp));
    assert(all.skip(32 + n) =~= data);
}

/// A field is its kind and its content: a flag is one byte, a number its bytes, an
/// absent value nothing. Fields follow one another.
pub proof fn fields_follow_one_another(
    a: Seq<FieldValue>,
    b: Seq<FieldValue>,
    d: Seq<u8>,
    n: u64,
    m: u32,
    flag: bool,
)
    ensures
        canonical_input(a + b) == canonical_input(a) + canonical_input(b),
        FieldValue::Bytes(d).encoding() == seq![0u8] + framed(d),
        FieldValue::U64(n).encoding() == seq![1u8] + framed(be8(n)),
        FieldValue::U32(m).encoding() == seq![2u8] + framed(be4(m)),
        FieldValue::Bool(flag).encoding().len() == 6,
        FieldValue::Bool(flag).encoding()[0] == 3,
        FieldValue::Bool(flag).encoding()[5] == (if flag {
            1u8
        } else {
            0u8
        }),
        FieldValue::Absent.encoding() == seq![4u8],
        FieldValue::Present(d).encoding() == seq![5u8] + framed(d),
        FieldValue::List(seq![d]).encoding() == seq![6u8] + be4(1) + framed(d),
    decreases a.len(),
{
    assert(FieldValue::Absent.encoding() =~= seq![4u8]);
    assert(seq![d].skip(1) =~= Seq::<Seq<u8>>::empty());
    assert(framed_all(seq![d].skip(1)) =~= Seq::<u8>::empty());
    assert(FieldValue::List(seq![d]).encoding() =~= seq![6u8] + be4(1) + framed(d));
    if a.len() == 0 {
        assert(a + b =~= b);
        assert(canonical_input(a) + canonical_input(b) =~= canonical_input(b));
    } else {
        fields_follow_one_another(a.skip(1), b, d, n, m, flag);
        assert((a + b).skip(1) =~= a.skip(1) + b);
        assert(canonical_input(a + b) =~= canonical_input(a) + canonical_input(b));
    }
}

/// A text is encoded as a contract value on whole words: four bytes for the kind,
/// four for the length, its bytes, and zeros up to a multiple of four.
pub proof fn texts_fill_whole_words(text: Seq<char>, i: int)
    ensures
        ({
            let bytes = encode_utf8(text);
            let all = text_xdr(text);
            let n = bytes.len() as int;
            &&& all.len() % 4 == 0
            &&& 8 + n <= all.len() < 12 + n
            &&& all.take(4) == be4(14)
            &&& all.subrange(4, 8) == be4(n as u32)
            &&& all.subrange(8, 8 + n) == bytes
            &&& 8 + n <= i < all.len() ==> all[i] == 0
            &&& padding(bytes.len()) < 4
        }),
{
    let bytes = encode_utf8(text);
    let all = text_xdr(text);
    let n = bytes.len() as int;
    assert(all.take(4) =~= be4(14));
    assert(all.subrange(4, 8) =~= be4(n as u32));
    assert(all.subrange(8, 8 + n) =~= bytes);
}

/// The first segment of every key is its prefix, and the values follow.
pub proof fn keys_start_with_their_prefix(key: StorageKey, i: int)
    ensures
        key.parts().len() == key.args().len() + 1,
        key.parts()[0] == encode_utf8(key.prefix()),
        0 <= i < key.args().len() ==> key.parts()[i + 1] == key.args()[i],
{
}

/// Two addresses of one kind are encoded alike but for their identifier, which ends
/// the encoding; an account takes four bytes more than a contract.
pub proof fn addresses_end_with_their_identifier(key: [u8; 32])
    ensures
        Address::Account(key).xdr().len() == 44,
        Address::Contract(key).xdr().len() == 40,
        Address::Account(key).xdr().skip(12) == key@,
        Address::Contract(key).xdr().skip(8) == key@,
        Address::Account(key).xdr()[3] == 18 && Address::Contract(key).xdr()[3] == 18,
        Address::Account(key).xdr()[7] == 0 && Address::Contract(key).xdr()[7] == 1,
{
    assert(key@.len() == 32);
    assert(Address::Account(key).xdr().skip(12) =~= key@);
    assert(Address::Contract(key).xdr().skip(8) =~= key@);
    bytes_spell_their_number(18, 0);
    bytes_spell_their_number(0, 0);
    bytes_spell_their_number(1, 0);
}

/// Digits rise with their value, are hexadecimal, and each byte has two of its own:
/// different bytes have different texts.
pub proof fn digits_rise(a: u8, b: u8, x: Seq<u8>, y: Seq<u8>)
    requires
        a < 16,
        b < 16,
    ensures
        is_hex(hex_digit(a)),
        hex_digit(0) == '0',
        hex_digit(9) == '9',
        hex_digit(10) == 'a',
        hex_digit(15) == 'f',
        a < b <==> hex_digit(a) < hex_digit(b),
        hex_text(x).len() == 2 * x.len(),
        hex_text(x) == hex_text(y) ==> x == y,
    decreases x.len(),
{
    hex_text_shape(x);
    hex_text_shape(y);
    if hex_text(x) == hex_text(y) && x.len() > 0 {
        let p = hex_text(x.drop_last());
        let q = hex_text(y.drop_last());
        hex_text_shape(x.drop_last());
        hex_text_shape(y.drop_last());
        let n = hex_text(x).len() as int;
        assert(p =~= hex_text(x).take(n - 2));
        assert(q =~= hex_text(y).take(n - 2));
        digits_rise(a, b, x.drop_last(), y.drop_last());
        let (u, v) = (x.last(), y.last());
        assert(hex_text(x)[n - 2] == hex_digit((u / 16) as u8));
        assert(hex_text(y)[n - 2] == hex_digit((v / 16) as u8));
        assert(hex_text(x)[n - 1] == hex_digit((u % 16) as u8));
        assert(hex_text(y)[n - 1] == hex_digit((v % 16) as u8));
        assert(u / 16 == v / 16);
        assert(u % 16 == v % 16);
        assert(x =~= x.drop_last().push(u));
        assert(y =~= y.drop_last().push(v));
    } else if hex_text(x) == hex_text(y) {
        assert(x =~= y);
    }
}

/// An identifier is valid exactly where it has thirty-two digits, each from zero to
/// nine or from a small a to a small f.
pub proof fn identifiers_are_hexadecimal(s: Seq<char>)
    ensures
        valid_id(s) <==> s.len() == 32 && forall|i: int|
            0 <= i < s.len() ==> ('0' <= #[trigger] s[i] <= '9') || ('a' <= s[i] <= 'f'),
{
    if valid_id(s) {
        assert forall|i: int| 0 <= i < s.len() implies ('0' <= #[trigger] s[i] <= '9') || ('a'
            <= s[i] <= 'f') by {
            assert(is_hex(s[i]));
        }
    }
}

/// A header counts by its name, in any case, and touches nothing that another
/// header says; an unknown one says nothing.
pub proof fn headers_count_by_their_name(st: HeaderState, name: Seq<char>, value: Seq<char>)
    ensures
        ({
            let r = read_header(st, name, value);
            let l = lowered(name);
            let hop = l == lowered("X-Hop-Count"@);
            &&& r is Err ==> hop && read_u32(value) is None && r == Err::<HeaderState, Seq<char>>(
                value,
            )
            &&& l == lowered("X-Correlation-Id"@) ==> r is Ok && r->Ok_0.id == Some(value)
            &&& r is Ok && l != lowered("X-Correlation-Id"@) ==> r->Ok_0.id == st.id
            &&& r is Ok && l != lowered("X-Origin-Service"@) ==> r->Ok_0.origin == st.origin
            &&& r is Ok && !hop ==> r->Ok_0.hop == st.hop
            &&& r is Ok && l != lowered("X-Baggage"@) ==> r->Ok_0.baggage == st.baggage
            &&& l == lowered("x-origin-service"@) ==> r is Ok && r->Ok_0.origin == Some(value)
            &&& l == lowered("x-hop-count"@) && read_u32(value) is Some ==> r is Ok && r->Ok_0.hop
                == read_u32(value)->0
            &&& l == lowered("x-hop-count"@) && read_u32(value) is None ==> r is Err
        }),
{
    reveal_strlit("X-Correlation-Id");
    reveal_strlit("X-Origin-Service");
    reveal_strlit("X-Hop-Count");
    reveal_strlit("x-origin-service");
    reveal_strlit("x-hop-count");
    reveal_strlit("X-Baggage");
    let (a, b, c) = ("X-Correlation-Id"@, "X-Origin-Service"@, "X-Hop-Count"@);
    assert(lowered(b) =~= lowered("x-origin-service"@));
    assert(lowered(c) =~= lowered("x-hop-count"@));
    assert(lowered(a)[2] == 'c' && lowered(b)[2] == 'o');
    assert(lowered(a).len() == 16 && lowered(b).len() == 16 && lowered(c).len() == 11);
    assert(lowered("X-Baggage"@).len() == 9);
}

/// A binding is read where its pair can be carried: the key gets the value and no
/// other key changes.
pub proof fn bindings_are_read(s: Pairs, p: (Seq<char>, Seq<char>), other: Seq<char>)
    ensures
        lookup(put(s, p.0, p.1), p.0) == Some(p.1),
        other != p.0 ==> lookup(put(s, p.0, p.1), other) == lookup(s, other),
        pair_text(p).len() == p.0.len() + 1 + p.1.len(),
        pair_text(p).take(p.0.len() as int) == p.0,
        pair_text(p)[p.0.len() as int] == '=',
{
    lookup_of_put(s, p.0, p.1, p.0);
    lookup_of_put(s, p.0, p.1, other);
    assert(pair_text(p).take(p.0.len() as int) =~= p.0);
}

/// Small and capital letters answer to each other, and nothing else changes case.
pub proof fn cases_answer_to_each_other(c: char, s: Seq<char>)
    ensures
        'A' <= c <= 'Z' ==> 'a' <= lower(c) <= 'z' && upper(lower(c)) == c,
        'a' <= c <= 'z' ==> 'A' <= upper(c) <= 'Z' && lower(upper(c)) == c,
        !('A' <= c <= 'Z') ==> lower(c) == c,
        !('a' <= c <= 'z') ==> upper(c) == c,
        lower('A') == 'a',
        lower('Z') == 'z',
        lowered(s).len() == s.len(),
        uppered(s).len() == s.len(),
{
}

/// A plus sign in front of a number changes nothing; a digit behind a numeral
/// multiplies its value by ten and adds to it.
pub proof fn numerals_grow_by_ten(s: Seq<char>, d: nat, n: nat)
    requires
        d < 10,
    ensures
        s.len() > 0 && s[0] != '+' ==> read_u32(seq!['+'] + s) == read_u32(s),
        numeral_value(seq![digit(d)]) == Some(d),
        numeral_value(s) is Some ==> numeral_value(s.push(digit(d))) == Some(
            10 * numeral_value(s)->0 + d,
        ),
        digit(0) == '0',
        digit(9) == '9',
        n >= 1 ==> decimal(10 * n + d) == decimal(n).push(digit(d)),
{
    assert((seq!['+'] + s).skip(1) =~= s);
    assert(s.push(digit(d)).drop_last() =~= s);
    assert(seq![digit(d)].last() == digit(d));
    assert((10 * n + d) / 10 == n);
    assert((10 * n + d) % 10 == d);
}

} // verus!
