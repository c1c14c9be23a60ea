//! Account and contract identities.
use crate::encoding::{be4, push_be4, push_bytes};
use crate::table::LedgerKey;
use soroban_sdk::xdr::FromXdr;
use vstd::prelude::*;

verus! {

/// A ledger identity: an account named by its ed25519 public key, or a
/// contract named by its 32-byte identifier.
#[derive(Clone, Copy, Debug, PartialEq, Eq)]
pub enum Address {
    Account([u8; 32]),
    Contract([u8; 32]),
}

impl View for Address {
    type V = Address;

    open spec fn view(&self) -> Address {
        *self
    }
}

/// The text of the address whose XDR encoding is `xdr`, as the host writes it:
/// a letter for its kind, and its identifier with a checksum.
pub uninterp spec fn strkey_text(xdr: Seq<u8>) -> Seq<char>;

/// Calls `soroban_sdk::Address::to_string` on the address that
/// `soroban_sdk::Address::from_xdr` reads from `xdr`. The result is a function of
/// the bytes alone. The calls run on a host of their own whose metering has no
/// limit. Reading panics on bytes that encode no address, which are left out.
#[verifier::external_body]
fn host_strkey(xdr: &Vec<u8>) -> (s: String)
    requires
        exists|a: Address| xdr@ == #[trigger] a.xdr(),
    ensures
        s@ == strkey_text(xdr@),
{
    let config = soroban_sdk::testutils::EnvTestConfig { capture_snapshot_at_drop: false };
    let env = soroban_sdk::Env::new_with_config(config);
    env.cost_estimate().budget().reset_unlimited();
    let bytes = soroban_sdk::Bytes::from_slice(&env, xdr.as_slice());
    let address = soroban_sdk::Address::from_xdr(&env, &bytes).unwrap();
    let text = address.to_string();
    let mut chars = vec![0u8; text.len() as usize];
    text.copy_into_slice(&mut chars);
    String::from_utf8_lossy(&chars).into_owned()
}

/// Whether two 32-byte values are equal.
pub fn same32(a: &[u8; 32], b: &[u8; 32]) -> (r: bool)
    ensures
        r == (*a == *b),
{
    let mut i: usize = 0;
    while i < 32
        invariant
            0 <= i <= 32,
            forall|j: int| 0 <= j < i ==> a@[j] == b@[j],
        decreases 32 - i,
    {
        if a[i] != b[i] {
            return false;
        }
        i = i + 1;
    }
    assert(a@ =~= b@);
    assert(*a =~= *b);
    true
}

impl Address {
    /// The XDR encoding of the address as a contract value.
    pub open spec fn xdr(self) -> Seq<u8> {
        match self {
            Address::Account(key) => be4(18) + be4(0) + be4(0) + key@,
            Address::Contract(id) => be4(18) + be4(1) + id@,
        }
    }

    /// Whether the two addresses are the same identity.
    pub fn equals(&self, other: &Address) -> (r: bool)
        ensures
            r == (*self == *other),
    {
        match (self, other) {
            (Address::Account(a), Address::Account(b)) => same32(a, b),
            (Address::Contract(a), Address::Contract(b)) => same32(a, b),
            _ => false,
        }
    }

    /// The XDR bytes of the address.
    pub fn to_xdr(&self) -> (bytes: Vec<u8>)
        ensures
            bytes@ == self.xdr(),
    {
        let mut out: Vec<u8> = Vec::new();
        push_be4(&mut out, 18);
        match self {
            Address::Account(key) => {
                push_be4(&mut out, 0);
                push_be4(&mut out, 0);
                push_bytes(&mut out, key.as_slice());
            },
            Address::Contract(id) => {
                push_be4(&mut out, 1);
                push_bytes(&mut out, id.as_slice());
            },
        }
        assert(out@ =~= self.xdr());
        out
    }

    /// The text of the address.
    pub fn to_text(&self) -> (s: String)
        ensures
            s@ == strkey_text(self.xdr()),
    {
        let xdr = self.to_xdr();
        host_strkey(&xdr)
    }
}

impl LedgerKey for Address {
    fn same(&self, other: &Address) -> (r: bool) {
        self.equals(other)
    }
}

} // verus!
