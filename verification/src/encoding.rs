//! Big-endian integer encodings and byte-string helpers.
use vstd::prelude::*;

verus! {

/// The four bytes of `n`, most significant first.
pub open spec fn be4(n: u32) -> Seq<u8> {
    seq![
        (n / 0x100_0000) as u8,
        ((n / 0x1_0000) % 0x100) as u8,
        ((n / 0x100) % 0x100) as u8,
        (n % 0x100) as u8,
    ]
}

/// The eight bytes of `n`, most significant first.
pub open spec fn be8(n: u64) -> Seq<u8> {
    be4((n / 0x1_0000_0000) as u32) + be4((n % 0x1_0000_0000) as u32)
}

/// Appends the four big-endian bytes of `n`.
pub fn push_be4(out: &mut Vec<u8>, n: u32)
    ensures
        final(out)@ == old(out)@ + be4(n),
{
    out.push((n / 0x100_0000) as u8);
    out.push(((n / 0x1_0000) % 0x100) as u8);
    out.push(((n / 0x100) % 0x100) as u8);
    out.push((n % 0x100) as u8);
    assert(out@ =~= old(out)@ + be4(n));
}

/// Appends the eight big-endian bytes of `n`.
pub fn push_be8(out: &mut Vec<u8>, n: u64)
    ensures
        final(out)@ == old(out)@ + be8(n),
{
    push_be4(out, (n / 0x1_0000_0000) as u32);
    push_be4(out, (n % 0x1_0000_0000) as u32);
    assert(out@ =~= old(out)@ + be8(n));
}

/// Appends all of `bytes`.
pub fn push_bytes(out: &mut Vec<u8>, bytes: &[u8])
    ensures
        final(out)@ == old(out)@ + bytes@,
{
    let n: usize = bytes.len();
    let mut i: usize = 0;
    while i < n
        invariant
            n == bytes@.len(),
            0 <= i <= n,
            out@ == old(out)@ + bytes@.take(i as int),
        decreases n - i,
    {
        out.push(bytes[i]);
        assert(bytes@.take(i + 1) =~= bytes@.take(i as int).push(bytes@[i as int]));
        i = i + 1;
    }
    assert(bytes@.take(n as int) =~= bytes@);
}

/// Whether two byte strings are equal.
pub fn bytes_equal(a: &[u8], b: &[u8]) -> (r: bool)
    ensures
        r == (a@ == b@),
{
    if a.len() != b.len() {
        return false;
    }
    let n: usize = a.len();
    let mut i: usize = 0;
    while i < n
        invariant
            n == a@.len(),
            n == b@.len(),
            0 <= i <= n,
            forall|j: int| 0 <= j < i ==> a@[j] == b@[j],
        decreases n - i,
    {
        if a[i] != b[i] {
            return false;
        }
        i = i + 1;
    }
    assert(a@ =~= b@);
    true
}

/// A fresh copy of a byte string.
pub fn copy_bytes(bytes: &[u8]) -> (r: Vec<u8>)
    ensures
        r@ == bytes@,
{
    let mut out: Vec<u8> = Vec::new();
    push_bytes(&mut out, bytes);
    assert(out@ =~= bytes@);
    out
}

/// Distinct integers have distinct four-byte encodings.
pub proof fn be4_injective(a: u32, b: u32)
    requires
        be4(a) == be4(b),
    ensures
        a == b,
{
    let x = be4(a);
    let y = be4(b);
    assert(x[0] == y[0] && x[1] == y[1] && x[2] == y[2] && x[3] == y[3]);
    assert((a / 0x100_0000) as u8 == (b / 0x100_0000) as u8 && ((a / 0x1_0000) % 0x100) as u8 == ((b
        / 0x1_0000) % 0x100) as u8 && ((a / 0x100) % 0x100) as u8 == ((b / 0x100) % 0x100) as u8 && (
    a % 0x100) as u8 == (b % 0x100) as u8 ==> a == b) by (bit_vector);
}

/// Distinct integers have distinct eight-byte encodings.
pub proof fn be8_injective(a: u64, b: u64)
    requires
        be8(a) == be8(b),
    ensures
        a == b,
{
    let ah = (a / 0x1_0000_0000) as u32;
    let al = (a % 0x1_0000_0000) as u32;
    let bh = (b / 0x1_0000_0000) as u32;
    let bl = (b % 0x1_0000_0000) as u32;
    assert(be8(a).take(4) =~= be4(ah));
    assert(be8(b).take(4) =~= be4(bh));
    assert(be8(a).skip(4) =~= be4(al));
    assert(be8(b).skip(4) =~= be4(bl));
    be4_injective(ah, bh);
    be4_injective(al, bl);
}

} // verus!
