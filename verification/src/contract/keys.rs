//! The keys under which the contract's records are stored.
//!
//! A key is the storage key of a prefix, one per kind of record, and of the
//! values that tell the records of that kind apart.
use crate::address::Address;
use crate::contract::types::{AdminCapability, AdminRole};
use crate::deterministic_hash::{
    framed_all, make_storage_key, segments, sha256_digest, storage_key_input_is_injective,
};
use crate::encoding::{
    be4, be4_injective, be8, be8_injective, copy_bytes, push_be4, push_be8, push_bytes,
};
use vstd::prelude::*;
use vstd::utf8::*;

verus! {

/// The records of which there is one.
#[derive(Clone, Copy, Debug, PartialEq, Eq, Structural)]
pub enum GlobalRecord {
    /// The administrator.
    Admin,
    /// The proposed administrator.
    PendingAdmin,
    /// Whether the contract is initialised.
    Initialized,
    /// The schema version.
    Version,
    /// The code hash before the last upgrade.
    OldCodeHash,
    /// How many audit entries are kept.
    AuditRetention,
    /// The blacklisted anchors.
    BlacklistIndex,
    /// The cluster names.
    ClusterList,
    /// The anchors with metadata.
    AnchorList,
    /// The reputation weights.
    ReputationWeights,
    /// The number of timed policies.
    PolicyCount,
    /// The active network.
    ActiveNetwork,
    /// The default network.
    DefaultNetwork,
    /// The cache governance settings.
    GovernanceConfig,
    /// The cache governance policies.
    GovernancePolicies,
    /// The number of proposals.
    ProposalCount,
    /// The number of audit entries.
    AuditCount,
    /// The number of sessions.
    SessionCount,
    /// The number of quotes.
    QuoteCount,
    /// The quote identifiers.
    QuoteIndex,
    /// The attestation identifiers.
    AttestationIndex,
    /// The number of request identifiers drawn.
    RequestCounter,
    /// The rate limit settings.
    RateLimits,
}

impl GlobalRecord {
    /// The prefix of the keys of this kind of record.
    pub open spec fn prefix(self) -> Seq<char> {
        match self {
            GlobalRecord::Admin => "ADMIN"@,
            GlobalRecord::PendingAdmin => "PENDADMIN"@,
            GlobalRecord::Initialized => "INITIALIZED"@,
            GlobalRecord::Version => "VERSION"@,
            GlobalRecord::OldCodeHash => "OLDHASH"@,
            GlobalRecord::AuditRetention => "AUDITRET"@,
            GlobalRecord::BlacklistIndex => "BLKIDX"@,
            GlobalRecord::ClusterList => "CLUSTERLIST"@,
            GlobalRecord::AnchorList => "ANCHLIST"@,
            GlobalRecord::ReputationWeights => "REPWTS"@,
            GlobalRecord::PolicyCount => "TPOLCNT"@,
            GlobalRecord::ActiveNetwork => "ACTNET"@,
            GlobalRecord::DefaultNetwork => "DEFNET"@,
            GlobalRecord::GovernanceConfig => "CGOV_CFG"@,
            GlobalRecord::GovernancePolicies => "CGOV_POL"@,
            GlobalRecord::ProposalCount => "CGOV_CNT"@,
            GlobalRecord::AuditCount => "ACNT"@,
            GlobalRecord::SessionCount => "SCNT"@,
            GlobalRecord::QuoteCount => "QCNT"@,
            GlobalRecord::QuoteIndex => "QIDX"@,
            GlobalRecord::AttestationIndex => "ATIDX"@,
            GlobalRecord::RequestCounter => "REQIDCNT"@,
            GlobalRecord::RateLimits => "RL_CONFIG"@,
        }
    }

    fn prefix_text(&self) -> (r: &'static str)
        ensures
            r@ == self.prefix(),
    {
        match self {
            GlobalRecord::Admin => "ADMIN",
            GlobalRecord::PendingAdmin => "PENDADMIN",
            GlobalRecord::Initialized => "INITIALIZED",
            GlobalRecord::Version => "VERSION",
            GlobalRecord::OldCodeHash => "OLDHASH",
            GlobalRecord::AuditRetention => "AUDITRET",
            GlobalRecord::BlacklistIndex => "BLKIDX",
            GlobalRecord::ClusterList => "CLUSTERLIST",
            GlobalRecord::AnchorList => "ANCHLIST",
            GlobalRecord::ReputationWeights => "REPWTS",
            GlobalRecord::PolicyCount => "TPOLCNT",
            GlobalRecord::ActiveNetwork => "ACTNET",
            GlobalRecord::DefaultNetwork => "DEFNET",
            GlobalRecord::GovernanceConfig => "CGOV_CFG",
            GlobalRecord::GovernancePolicies => "CGOV_POL",
            GlobalRecord::ProposalCount => "CGOV_CNT",
            GlobalRecord::AuditCount => "ACNT",
            GlobalRecord::SessionCount => "SCNT",
            GlobalRecord::QuoteCount => "QCNT",
            GlobalRecord::QuoteIndex => "QIDX",
            GlobalRecord::AttestationIndex => "ATIDX",
            GlobalRecord::RequestCounter => "REQIDCNT",
            GlobalRecord::RateLimits => "RL_CONFIG",
        }
    }
}

/// The records kept per address.
#[derive(Clone, Copy, Debug, PartialEq, Eq, Structural)]
pub enum AddressRecord {
    /// The KYC record of a subject.
    Kyc,
    /// The data hash of a subject.
    KycData,
    /// The checks run on a subject.
    ComplianceIndex,
    /// The routing metadata of an anchor.
    AnchorMeta,
    /// The blacklist entry of an anchor.
    Blacklisted,
    /// The services of an anchor.
    Services,
    /// The registration of an attestor.
    Attestor,
    /// The signing key of an attestor.
    AttestorKey,
    /// The token key of an issuer.
    Sep10Key,
    /// The token key that an issuer replaced.
    Sep10OldKey,
    /// The latest quote of an anchor.
    LatestQuote,
    /// The number of metadata versions of an anchor.
    MetaVersionCount,
    /// The reputation of an anchor.
    Reputation,
    /// The health counters of an anchor.
    HealthCount,
    /// The health windows of an anchor.
    HealthWindows,
    /// The popularity of an anchor.
    Popularity,
}

impl AddressRecord {
    /// The prefix of the keys of this kind of record.
    pub open spec fn prefix(self) -> Seq<char> {
        match self {
            AddressRecord::Kyc => "KYC"@,
            AddressRecord::KycData => "KYCDATA"@,
            AddressRecord::ComplianceIndex => "COMPIDX"@,
            AddressRecord::AnchorMeta => "ANCHMETA"@,
            AddressRecord::Blacklisted => "BLACKLIST"@,
            AddressRecord::Services => "SERVICES"@,
            AddressRecord::Attestor => "ATTESTOR"@,
            AddressRecord::AttestorKey => "ATPUBKEY"@,
            AddressRecord::Sep10Key => "SEP10KEY"@,
            AddressRecord::Sep10OldKey => "SEP10OLD"@,
            AddressRecord::LatestQuote => "LATESTQ"@,
            AddressRecord::MetaVersionCount => "METAVCNT"@,
            AddressRecord::Reputation => "REPREC"@,
            AddressRecord::HealthCount => "HLTHCNT"@,
            AddressRecord::HealthWindows => "HLTHWIN"@,
            AddressRecord::Popularity => "ANCHPOP"@,
        }
    }

    fn prefix_text(&self) -> (r: &'static str)
        ensures
            r@ == self.prefix(),
    {
        match self {
            AddressRecord::Kyc => "KYC",
            AddressRecord::KycData => "KYCDATA",
            AddressRecord::ComplianceIndex => "COMPIDX",
            AddressRecord::AnchorMeta => "ANCHMETA",
            AddressRecord::Blacklisted => "BLACKLIST",
            AddressRecord::Services => "SERVICES",
            AddressRecord::Attestor => "ATTESTOR",
            AddressRecord::AttestorKey => "ATPUBKEY",
            AddressRecord::Sep10Key => "SEP10KEY",
            AddressRecord::Sep10OldKey => "SEP10OLD",
            AddressRecord::LatestQuote => "LATESTQ",
            AddressRecord::MetaVersionCount => "METAVCNT",
            AddressRecord::Reputation => "REPREC",
            AddressRecord::HealthCount => "HLTHCNT",
            AddressRecord::HealthWindows => "HLTHWIN",
            AddressRecord::Popularity => "ANCHPOP",
        }
    }
}

/// The records kept per number.
#[derive(Clone, Copy, Debug, PartialEq, Eq, Structural)]
pub enum NumberedRecord {
    /// The anchor of a quote.
    QuoteAnchor,
    /// A session.
    Session,
    /// The number of operations of a session.
    SessionOps,
    /// An audit entry.
    Audit,
    /// An attestation.
    Attestation,
    /// A timed policy.
    TimedPolicy,
    /// A cache governance proposal.
    Proposal,
}

impl NumberedRecord {
    /// The prefix of the keys of this kind of record.
    pub open spec fn prefix(self) -> Seq<char> {
        match self {
            NumberedRecord::QuoteAnchor => "QANCH"@,
            NumberedRecord::Session => "SESS"@,
            NumberedRecord::SessionOps => "SOPCNT"@,
            NumberedRecord::Audit => "AUDIT"@,
            NumberedRecord::Attestation => "ATTEST"@,
            NumberedRecord::TimedPolicy => "TPOL"@,
            NumberedRecord::Proposal => "CGOV_PROP"@,
        }
    }

    fn prefix_text(&self) -> (r: &'static str)
        ensures
            r@ == self.prefix(),
    {
        match self {
            NumberedRecord::QuoteAnchor => "QANCH",
            NumberedRecord::Session => "SESS",
            NumberedRecord::SessionOps => "SOPCNT",
            NumberedRecord::Audit => "AUDIT",
            NumberedRecord::Attestation => "ATTEST",
            NumberedRecord::TimedPolicy => "TPOL",
            NumberedRecord::Proposal => "CGOV_PROP",
        }
    }
}

/// The records kept per anchor and quote.
#[derive(Clone, Copy, Debug, PartialEq, Eq, Structural)]
pub enum QuoteRecord {
    /// A quote of an anchor.
    Quote,
    /// The state of a quote of an anchor.
    QuoteLifecycle,
}

impl QuoteRecord {
    /// The prefix of the keys of this kind of record.
    pub open spec fn prefix(self) -> Seq<char> {
        match self {
            QuoteRecord::Quote => "QUOTE"@,
            QuoteRecord::QuoteLifecycle => "QLIFE"@,
        }
    }

    fn prefix_text(&self) -> (r: &'static str)
        ensures
            r@ == self.prefix(),
    {
        match self {
            QuoteRecord::Quote => "QUOTE",
            QuoteRecord::QuoteLifecycle => "QLIFE",
        }
    }
}

/// The records kept per subject and kind of check.
#[derive(Clone, Copy, Debug, PartialEq, Eq, Structural)]
pub enum CheckRecord {
    /// The last check of a kind on a subject.
    ComplianceCheck,
    /// The number of checks of a kind on a subject.
    ComplianceCount,
}

impl CheckRecord {
    /// The prefix of the keys of this kind of record.
    pub open spec fn prefix(self) -> Seq<char> {
        match self {
            CheckRecord::ComplianceCheck => "COMP"@,
            CheckRecord::ComplianceCount => "COMPHCNT"@,
        }
    }

    fn prefix_text(&self) -> (r: &'static str)
        ensures
            r@ == self.prefix(),
    {
        match self {
            CheckRecord::ComplianceCheck => "COMP",
            CheckRecord::ComplianceCount => "COMPHCNT",
        }
    }
}

/// What a stored record is about.
pub enum StorageKey {
    /// A record of the contract as a whole.
    Global(GlobalRecord),
    /// A record about an address.
    Of(AddressRecord, Address),
    /// A record with a number.
    Numbered(NumberedRecord, u64),
    /// A record about a quote of an anchor.
    QuoteOf(QuoteRecord, Address, u64),
    /// A record about the checks of one kind on a subject.
    CheckOf(CheckRecord, Address, String),
    /// The audit entry of an operation of a session.
    SessionLog(u64, u64),
    /// A metadata version of an anchor.
    MetaVersion(Address, u32),
    /// A cluster.
    Cluster(String),
    /// A network profile.
    NetworkProfile(String),
    /// A check of a kind on a subject.
    ComplianceEntry(Address, String, u64),
    /// Whether a role is granted.
    Role(AdminRole, Address),
    /// Whether a capability is granted.
    Capability(AdminCapability, Address),
    /// Whether an issuer used a payload hash.
    UsedPayload(Address, Vec<u8>),
    /// Whether a session used a payload hash.
    SessionPayload(u64, Vec<u8>),
}

/// The byte that stands for a role.
pub open spec fn role_byte(role: AdminRole) -> u8 {
    match role {
        AdminRole::KycAdmin => 0,
        AdminRole::AttestorAdmin => 1,
        AdminRole::CacheAdmin => 2,
    }
}

/// The byte that stands for a capability.
pub open spec fn capability_byte(cap: AdminCapability) -> u8 {
    match cap {
        AdminCapability::UpgradeContract => 0,
        AdminCapability::MigrateSchema => 1,
        AdminCapability::SetCacheConfig => 2,
        AdminCapability::ManageAttestors => 3,
        AdminCapability::ManageKyc => 4,
        AdminCapability::ManageCacheEntries => 5,
        AdminCapability::ToggleServices => 6,
        AdminCapability::SetRateLimits => 7,
        AdminCapability::SetJwtConfig => 8,
        AdminCapability::ManageAnchorMetadata => 9,
    }
}

/// How many zero bytes follow `n` bytes of text.
pub open spec fn padding(n: nat) -> nat {
    ((4 - n % 4) % 4) as nat
}

/// The XDR encoding of a text as a contract value: its kind, its length, its
/// bytes, and zeros up to a multiple of four bytes.
pub open spec fn text_xdr(text: Seq<char>) -> Seq<u8> {
    let bytes = encode_utf8(text);
    be4(14) + be4(bytes.len() as u32) + bytes + Seq::new(padding(bytes.len()), |i: int| 0u8)
}


impl StorageKey {
    /// The prefix of the records of this kind.
    pub open spec fn prefix(self) -> Seq<char> {
        match self {
            StorageKey::Global(record) => record.prefix(),
            StorageKey::Of(record, _) => record.prefix(),
            StorageKey::Numbered(record, _) => record.prefix(),
            StorageKey::QuoteOf(record, _, _) => record.prefix(),
            StorageKey::CheckOf(record, _, _) => record.prefix(),
            StorageKey::SessionLog(_, _) => "SLOG"@,
            StorageKey::MetaVersion(_, _) => "METAHIST"@,
            StorageKey::Cluster(_) => "CLUSTER"@,
            StorageKey::NetworkProfile(_) => "NETPROF"@,
            StorageKey::ComplianceEntry(_, _, _) => "COMPHIST"@,
            StorageKey::Role(_, _) => "ROLESET"@,
            StorageKey::Capability(_, _) => "CAPSET"@,
            StorageKey::UsedPayload(_, _) => "USED"@,
            StorageKey::SessionPayload(_, _) => "SESSREQ"@,
        }
    }

    /// The values that tell the records of this kind apart.
    pub open spec fn args(self) -> Seq<Seq<u8>> {
        match self {
            StorageKey::Global(_) => seq![],
            StorageKey::Of(_, who) => seq![who.xdr()],
            StorageKey::Numbered(_, n) => seq![be8(n)],
            StorageKey::QuoteOf(_, who, n) => seq![who.xdr(), be8(n)],
            StorageKey::CheckOf(_, who, text) => seq![who.xdr(), text_xdr(text@)],
            StorageKey::SessionLog(outer, inner) => seq![be8(outer), be8(inner)],
            StorageKey::MetaVersion(who, n) => seq![who.xdr(), be4(n)],
            StorageKey::Cluster(text) => seq![text_xdr(text@)],
            StorageKey::NetworkProfile(text) => seq![encode_utf8(text@)],
            StorageKey::ComplianceEntry(who, text, n) => seq![who.xdr(), text_xdr(text@), be8(n)],
            StorageKey::Role(role, who) => seq![seq![role_byte(role)], who.xdr()],
            StorageKey::Capability(cap, who) => seq![seq![capability_byte(cap)], who.xdr()],
            StorageKey::UsedPayload(who, bytes) => seq![who.xdr(), bytes@],
            StorageKey::SessionPayload(n, bytes) => seq![be8(n), bytes@],
        }
    }

    /// The segments of the key: the prefix, then the values.
    pub open spec fn parts(self) -> Seq<Seq<u8>> {
        seq![encode_utf8(self.prefix())] + self.args()
    }

    /// Whether the length of each value can be written down.
    pub open spec fn lengths_fit(self) -> bool {
        forall|i: int| 0 <= i < self.args().len() ==> (#[trigger] self.args()[i]).len() <= u32::MAX
    }

    /// Whether both keys are about the same record.
    pub open spec fn names_same(self, other: StorageKey) -> bool {
        match (self, other) {
            (StorageKey::CheckOf(record1, who1, text1), StorageKey::CheckOf(record2, who2, text2)) => {
                &&& record1 == record2
                &&& who1 == who2
                &&& text1@ == text2@
            },
            (StorageKey::Cluster(text1), StorageKey::Cluster(text2)) => text1@ == text2@,
            (StorageKey::NetworkProfile(text1), StorageKey::NetworkProfile(text2)) => {
                &&& text1@ == text2@
            },
            (StorageKey::ComplianceEntry(who1, text1, n1), StorageKey::ComplianceEntry(who2, text2, n2)) => {
                &&& who1 == who2
                &&& text1@ == text2@
                &&& n1 == n2
            },
            (StorageKey::UsedPayload(who1, bytes1), StorageKey::UsedPayload(who2, bytes2)) => {
                &&& who1 == who2
                &&& bytes1@ == bytes2@
            },
            (StorageKey::SessionPayload(n1, bytes1), StorageKey::SessionPayload(n2, bytes2)) => {
                &&& n1 == n2
                &&& bytes1@ == bytes2@
            },
            _ => self == other,
        }
    }

    /// The prefix of the records of this kind.
    fn prefix_text(&self) -> (r: &'static str)
        ensures
            r@ == self.prefix(),
    {
        match self {
            StorageKey::Global(record) => record.prefix_text(),
            StorageKey::Of(record, _) => record.prefix_text(),
            StorageKey::Numbered(record, _) => record.prefix_text(),
            StorageKey::QuoteOf(record, _, _) => record.prefix_text(),
            StorageKey::CheckOf(record, _, _) => record.prefix_text(),
            StorageKey::SessionLog(_, _) => "SLOG",
            StorageKey::MetaVersion(_, _) => "METAHIST",
            StorageKey::Cluster(_) => "CLUSTER",
            StorageKey::NetworkProfile(_) => "NETPROF",
            StorageKey::ComplianceEntry(_, _, _) => "COMPHIST",
            StorageKey::Role(_, _) => "ROLESET",
            StorageKey::Capability(_, _) => "CAPSET",
            StorageKey::UsedPayload(_, _) => "USED",
            StorageKey::SessionPayload(_, _) => "SESSREQ",
        }
    }

    /// The values that tell the records of this kind apart.
    fn arg_bytes(&self) -> (r: Vec<Vec<u8>>)
        requires
            self.lengths_fit(),
        ensures
            all_bytes(r@) == self.args(),
    {
        proof {
            match self {
                StorageKey::CheckOf(_, _, text) => {
                    assert(self.args()[1] == text_xdr(text@));
                },
                StorageKey::Cluster(text) => {
                    assert(self.args()[0] == text_xdr(text@));
                },
                StorageKey::ComplianceEntry(_, text, _) => {
                    assert(self.args()[1] == text_xdr(text@));
                },
                _ => {},
            }
        }
        let r: Vec<Vec<u8>> = match self {
            StorageKey::Global(_) => Vec::new(),
            StorageKey::Of(_, who) => vec![who.to_xdr()],
            StorageKey::Numbered(_, n) => vec![number_bytes(*n)],
            StorageKey::QuoteOf(_, who, n) => vec![who.to_xdr(), number_bytes(*n)],
            StorageKey::CheckOf(_, who, text) => vec![who.to_xdr(), text_to_xdr(text.as_str())],
            StorageKey::SessionLog(outer, inner) => vec![number_bytes(*outer), number_bytes(*inner)],
            StorageKey::MetaVersion(who, n) => vec![who.to_xdr(), small_number_bytes(*n)],
            StorageKey::Cluster(text) => vec![text_to_xdr(text.as_str())],
            StorageKey::NetworkProfile(text) => vec![copy_bytes(text.as_str().as_bytes())],
            StorageKey::ComplianceEntry(who, text, n) => {
                vec![who.to_xdr(), text_to_xdr(text.as_str()), number_bytes(*n)]
            },
            StorageKey::Role(role, who) => vec![one_byte(byte_of_role(*role)), who.to_xdr()],
            StorageKey::Capability(cap, who) => vec![one_byte(byte_of_capability(*cap)), who.to_xdr()],
            StorageKey::UsedPayload(who, bytes) => vec![who.to_xdr(), copy_bytes(bytes.as_slice())],
            StorageKey::SessionPayload(n, bytes) => vec![number_bytes(*n), copy_bytes(bytes.as_slice())],
        };
        assert(all_bytes(r@) =~= self.args());
        r
    }
}


/// The byte sequences of a list of byte strings.
pub open spec fn all_bytes(list: Seq<Vec<u8>>) -> Seq<Seq<u8>> {
    list.map_values(|v: Vec<u8>| v@)
}

fn byte_of_role(role: AdminRole) -> (r: u8)
    ensures
        r == role_byte(role),
{
    match role {
        AdminRole::KycAdmin => 0,
        AdminRole::AttestorAdmin => 1,
        AdminRole::CacheAdmin => 2,
    }
}

fn byte_of_capability(cap: AdminCapability) -> (r: u8)
    ensures
        r == capability_byte(cap),
{
    match cap {
        AdminCapability::UpgradeContract => 0,
        AdminCapability::MigrateSchema => 1,
        AdminCapability::SetCacheConfig => 2,
        AdminCapability::ManageAttestors => 3,
        AdminCapability::ManageKyc => 4,
        AdminCapability::ManageCacheEntries => 5,
        AdminCapability::ToggleServices => 6,
        AdminCapability::SetRateLimits => 7,
        AdminCapability::SetJwtConfig => 8,
        AdminCapability::ManageAnchorMetadata => 9,
    }
}

fn one_byte(b: u8) -> (r: Vec<u8>)
    ensures
        r@ == seq![b],
{
    let mut out: Vec<u8> = Vec::new();
    out.push(b);
    assert(out@ =~= seq![b]);
    out
}

fn number_bytes(n: u64) -> (r: Vec<u8>)
    ensures
        r@ == be8(n),
{
    let mut out: Vec<u8> = Vec::new();
    push_be8(&mut out, n);
    assert(out@ =~= be8(n));
    out
}

fn small_number_bytes(n: u32) -> (r: Vec<u8>)
    ensures
        r@ == be4(n),
{
    let mut out: Vec<u8> = Vec::new();
    push_be4(&mut out, n);
    assert(out@ =~= be4(n));
    out
}

/// The XDR bytes of a text.
pub fn text_to_xdr(text: &str) -> (r: Vec<u8>)
    requires
        encode_utf8(text@).len() <= u32::MAX,
    ensures
        r@ == text_xdr(text@),
{
    let bytes: &[u8] = text.as_bytes();
    let mut out: Vec<u8> = Vec::new();
    push_be4(&mut out, 14);
    push_be4(&mut out, bytes.len() as u32);
    push_bytes(&mut out, bytes);
    let pad: usize = (4 - bytes.len() % 4) % 4;
    let ghost before = out@;
    let mut i: usize = 0;
    while i < pad
        invariant
            0 <= i <= pad,
            out@ == before + Seq::new(i as nat, |j: int| 0u8),
        decreases pad - i,
    {
        out.push(0u8);
        assert(Seq::new((i + 1) as nat, |j: int| 0u8) =~= Seq::new(i as nat, |j: int| 0u8).push(0u8));
        i = i + 1;
    }
    assert(out@ =~= text_xdr(text@));
    out
}

/// A segment is no longer than all framed segments.
proof fn framed_covers(parts: Seq<Seq<u8>>, i: int)
    requires
        0 <= i < parts.len(),
    ensures
        parts[i].len() <= framed_all(parts).len(),
    decreases parts.len(),
{
    if i > 0 {
        framed_covers(parts.skip(1), i - 1);
        assert(parts.skip(1)[i - 1] == parts[i]);
    }
}

/// The storage key of a record.
pub fn storage_key(key: &StorageKey) -> (r: [u8; 32])
    requires
        framed_all(key.parts()).len() <= u32::MAX,
    ensures
        r@ == sha256_digest(framed_all(key.parts())),
{
    proof {
        assert forall|i: int| 0 <= i < key.parts().len() implies (#[trigger] key.parts()[i]).len()
            <= u32::MAX by {
            framed_covers(key.parts(), i);
        }
        assert forall|i: int| 0 <= i < key.args().len() implies (#[trigger] key.args()[i]).len()
            <= u32::MAX by {
            assert(key.parts()[i + 1] == key.args()[i]);
        }
    }
    let args: Vec<Vec<u8>> = key.arg_bytes();
    let mut parts: Vec<&[u8]> = Vec::new();
    parts.push(key.prefix_text().as_bytes());
    let mut i: usize = 0;
    while i < args.len()
        invariant
            0 <= i <= args@.len(),
            all_bytes(args@) == key.args(),
            segments(parts@) == seq![encode_utf8(key.prefix())] + key.args().take(i as int),
        decreases args@.len() - i,
    {
        let ghost before = segments(parts@);
        parts.push(args[i].as_slice());
        proof {
            assert(segments(parts@) =~= before.push(args@[i as int]@));
            assert(key.args()[i as int] == args@[i as int]@);
            assert(key.args().take(i + 1) =~= key.args().take(i as int).push(args@[i as int]@));
        }
        i = i + 1;
    }
    assert(segments(parts@) =~= key.parts());
    match make_storage_key(parts.as_slice()) {
        Ok(digest) => digest,
        Err(_) => {
            assert(false);
            [0u8; 32]
        },
    }
}

/// Texts with equal XDR bytes are equal.
proof fn text_xdr_is_injective(a: Seq<char>, b: Seq<char>)
    requires
        text_xdr(a) == text_xdr(b),
        text_xdr(a).len() <= u32::MAX,
    ensures
        a == b,
{
    let x = encode_utf8(a);
    let y = encode_utf8(b);
    let s = text_xdr(a);
    assert(x.len() <= u32::MAX && y.len() <= u32::MAX);
    assert(s.subrange(4, 8) =~= be4(x.len() as u32));
    assert(text_xdr(b).subrange(4, 8) =~= be4(y.len() as u32));
    be4_injective(x.len() as u32, y.len() as u32);
    assert(s.subrange(8, 8 + x.len() as int) =~= x);
    assert(text_xdr(b).subrange(8, 8 + y.len() as int) =~= y);
    encode_utf8_decode_utf8(a);
    encode_utf8_decode_utf8(b);
}

/// Addresses with equal XDR bytes are equal.
proof fn address_xdr_is_injective(a: Address, b: Address)
    requires
        a.xdr() == b.xdr(),
    ensures
        a == b,
{
    match (a, b) {
        (Address::Account(x), Address::Account(y)) => {
            assert(a.xdr().subrange(12, 44) =~= x@);
            assert(b.xdr().subrange(12, 44) =~= y@);
            assert(x =~= y);
        },
        (Address::Contract(x), Address::Contract(y)) => {
            assert(a.xdr().subrange(8, 40) =~= x@);
            assert(b.xdr().subrange(8, 40) =~= y@);
            assert(x =~= y);
        },
        (Address::Account(_), Address::Contract(_)) => {
            assert(a.xdr()[7] == be4(0)[3]);
            assert(b.xdr()[7] == be4(1)[3]);
        },
        (Address::Contract(_), Address::Account(_)) => {
            assert(a.xdr()[7] == be4(1)[3]);
            assert(b.xdr()[7] == be4(0)[3]);
        },
    }
}

/// The character at a place, as a number; zero behind the end.
spec fn letter(s: Seq<char>, i: int) -> int {
    if i < s.len() {
        s[i] as int
    } else {
        0
    }
}

/// Four characters by which the prefixes differ, as one number.
spec fn mark(s: Seq<char>) -> int {
    0x100_0000 * letter(s, 0) + 0x1_0000 * letter(s, 1) + 0x100 * letter(s, 5) + letter(s, 7)
}

/// The mark of the prefix of each kind of record.
spec fn kind(key: StorageKey) -> int {
    match key {
        StorageKey::Global(record) => match record {
            GlobalRecord::Admin => 0x41440000,
            GlobalRecord::PendingAdmin => 0x50454449,
            GlobalRecord::Initialized => 0x494e4149,
            GlobalRecord::Version => 0x56454f00,
            GlobalRecord::OldCodeHash => 0x4f4c5300,
            GlobalRecord::AuditRetention => 0x41555254,
            GlobalRecord::BlacklistIndex => 0x424c5800,
            GlobalRecord::ClusterList => 0x434c454c,
            GlobalRecord::AnchorList => 0x414e4954,
            GlobalRecord::ReputationWeights => 0x52455300,
            GlobalRecord::PolicyCount => 0x54504e00,
            GlobalRecord::ActiveNetwork => 0x41435400,
            GlobalRecord::DefaultNetwork => 0x44455400,
            GlobalRecord::GovernanceConfig => 0x43474347,
            GlobalRecord::GovernancePolicies => 0x4347504c,
            GlobalRecord::ProposalCount => 0x43474354,
            GlobalRecord::AuditCount => 0x41430000,
            GlobalRecord::SessionCount => 0x53430000,
            GlobalRecord::QuoteCount => 0x51430000,
            GlobalRecord::QuoteIndex => 0x51490000,
            GlobalRecord::AttestationIndex => 0x41540000,
            GlobalRecord::RequestCounter => 0x52454354,
            GlobalRecord::RateLimits => 0x524c4e49,
        },
        StorageKey::Of(record, _) => match record {
            AddressRecord::Kyc => 0x4b590000,
            AddressRecord::KycData => 0x4b595400,
            AddressRecord::ComplianceIndex => 0x434f4400,
            AddressRecord::AnchorMeta => 0x414e4541,
            AddressRecord::Blacklisted => 0x424c4c53,
            AddressRecord::Services => 0x53454353,
            AddressRecord::Attestor => 0x41545452,
            AddressRecord::AttestorKey => 0x41544b59,
            AddressRecord::Sep10Key => 0x53454b59,
            AddressRecord::Sep10OldKey => 0x53454f44,
            AddressRecord::LatestQuote => 0x4c415400,
            AddressRecord::MetaVersionCount => 0x4d454354,
            AddressRecord::Reputation => 0x52454300,
            AddressRecord::HealthCount => 0x484c4e00,
            AddressRecord::HealthWindows => 0x484c4900,
            AddressRecord::Popularity => 0x414e4f00,
        },
        StorageKey::Numbered(record, _) => match record {
            NumberedRecord::QuoteAnchor => 0x51410000,
            NumberedRecord::Session => 0x53450000,
            NumberedRecord::SessionOps => 0x534f5400,
            NumberedRecord::Audit => 0x41550000,
            NumberedRecord::Attestation => 0x41545400,
            NumberedRecord::TimedPolicy => 0x54500000,
            NumberedRecord::Proposal => 0x4347504f,
        },
        StorageKey::QuoteOf(record, _, _) => match record {
            QuoteRecord::Quote => 0x51550000,
            QuoteRecord::QuoteLifecycle => 0x514c0000,
        },
        StorageKey::CheckOf(record, _, _) => match record {
            CheckRecord::ComplianceCheck => 0x434f0000,
            CheckRecord::ComplianceCount => 0x434f4354,
        },
        StorageKey::SessionLog(_, _) => 0x534c0000,
        StorageKey::MetaVersion(_, _) => 0x4d454954,
        StorageKey::Cluster(_) => 0x434c4500,
        StorageKey::NetworkProfile(_) => 0x4e454f00,
        StorageKey::ComplianceEntry(_, _, _) => 0x434f4954,
        StorageKey::Role(_, _) => 0x524f4500,
        StorageKey::Capability(_, _) => 0x43415400,
        StorageKey::UsedPayload(_, _) => 0x55530000,
        StorageKey::SessionPayload(_, _) => 0x53454500,
    }
}

proof fn kind_is_mark(key: StorageKey)
    ensures
        mark(key.prefix()) == kind(key),
{
    match key {
        StorageKey::Global(record) => match record {
            GlobalRecord::Admin => {
                reveal_strlit("ADMIN");
            },
            GlobalRecord::PendingAdmin => {
                reveal_strlit("PENDADMIN");
            },
            GlobalRecord::Initialized => {
                reveal_strlit("INITIALIZED");
            },
            GlobalRecord::Version => {
                reveal_strlit("VERSION");
            },
            GlobalRecord::OldCodeHash => {
                reveal_strlit("OLDHASH");
            },
            GlobalRecord::AuditRetention => {
                reveal_strlit("AUDITRET");
            },
            GlobalRecord::BlacklistIndex => {
                reveal_strlit("BLKIDX");
            },
            GlobalRecord::ClusterList => {
                reveal_strlit("CLUSTERLIST");
            },
            GlobalRecord::AnchorList => {
                reveal_strlit("ANCHLIST");
            },
            GlobalRecord::ReputationWeights => {
                reveal_strlit("REPWTS");
            },
            GlobalRecord::PolicyCount => {
                reveal_strlit("TPOLCNT");
            },
            GlobalRecord::ActiveNetwork => {
                reveal_strlit("ACTNET");
            },
            GlobalRecord::DefaultNetwork => {
                reveal_strlit("DEFNET");
            },
            GlobalRecord::GovernanceConfig => {
                reveal_strlit("CGOV_CFG");
            },
            GlobalRecord::GovernancePolicies => {
                reveal_strlit("CGOV_POL");
            },
            GlobalRecord::ProposalCount => {
                reveal_strlit("CGOV_CNT");
            },
            GlobalRecord::AuditCount => {
                reveal_strlit("ACNT");
            },
            GlobalRecord::SessionCount => {
                reveal_strlit("SCNT");
            },
            GlobalRecord::QuoteCount => {
                reveal_strlit("QCNT");
            },
            GlobalRecord::QuoteIndex => {
                reveal_strlit("QIDX");
            },
            GlobalRecord::AttestationIndex => {
                reveal_strlit("ATIDX");
            },
            GlobalRecord::RequestCounter => {
                reveal_strlit("REQIDCNT");
            },
            GlobalRecord::RateLimits => {
                reveal_strlit("RL_CONFIG");
            },
        },
        StorageKey::Of(record, _) => match record {
            AddressRecord::Kyc => {
                reveal_strlit("KYC");
            },
            AddressRecord::KycData => {
                reveal_strlit("KYCDATA");
            },
            AddressRecord::ComplianceIndex => {
                reveal_strlit("COMPIDX");
            },
            AddressRecord::AnchorMeta => {
                reveal_strlit("ANCHMETA");
            },
            AddressRecord::Blacklisted => {
                reveal_strlit("BLACKLIST");
            },
            AddressRecord::Services => {
                reveal_strlit("SERVICES");
            },
            AddressRecord::Attestor => {
                reveal_strlit("ATTESTOR");
            },
            AddressRecord::AttestorKey => {
                reveal_strlit("ATPUBKEY");
            },
            AddressRecord::Sep10Key => {
                reveal_strlit("SEP10KEY");
            },
            AddressRecord::Sep10OldKey => {
                reveal_strlit("SEP10OLD");
            },
            AddressRecord::LatestQuote => {
                reveal_strlit("LATESTQ");
            },
            AddressRecord::MetaVersionCount => {
                reveal_strlit("METAVCNT");
            },
            AddressRecord::Reputation => {
                reveal_strlit("REPREC");
            },
            AddressRecord::HealthCount => {
                reveal_strlit("HLTHCNT");
            },
            AddressRecord::HealthWindows => {
                reveal_strlit("HLTHWIN");
            },
            AddressRecord::Popularity => {
                reveal_strlit("ANCHPOP");
            },
        },
        StorageKey::Numbered(record, _) => match record {
            NumberedRecord::QuoteAnchor => {
                reveal_strlit("QANCH");
            },
            NumberedRecord::Session => {
                reveal_strlit("SESS");
            },
            NumberedRecord::SessionOps => {
                reveal_strlit("SOPCNT");
            },
            NumberedRecord::Audit => {
                reveal_strlit("AUDIT");
            },
            NumberedRecord::Attestation => {
                reveal_strlit("ATTEST");
            },
            NumberedRecord::TimedPolicy => {
                reveal_strlit("TPOL");
            },
            NumberedRecord::Proposal => {
                reveal_strlit("CGOV_PROP");
            },
        },
        StorageKey::QuoteOf(record, _, _) => match record {
            QuoteRecord::Quote => {
                reveal_strlit("QUOTE");
            },
            QuoteRecord::QuoteLifecycle => {
                reveal_strlit("QLIFE");
            },
        },
        StorageKey::CheckOf(record, _, _) => match record {
            CheckRecord::ComplianceCheck => {
                reveal_strlit("COMP");
            },
            CheckRecord::ComplianceCount => {
                reveal_strlit("COMPHCNT");
            },
        },
        StorageKey::SessionLog(_, _) => {
            reveal_strlit("SLOG");
        },
        StorageKey::MetaVersion(_, _) => {
            reveal_strlit("METAHIST");
        },
        StorageKey::Cluster(_) => {
            reveal_strlit("CLUSTER");
        },
        StorageKey::NetworkProfile(_) => {
            reveal_strlit("NETPROF");
        },
        StorageKey::ComplianceEntry(_, _, _) => {
            reveal_strlit("COMPHIST");
        },
        StorageKey::Role(_, _) => {
            reveal_strlit("ROLESET");
        },
        StorageKey::Capability(_, _) => {
            reveal_strlit("CAPSET");
        },
        StorageKey::UsedPayload(_, _) => {
            reveal_strlit("USED");
        },
        StorageKey::SessionPayload(_, _) => {
            reveal_strlit("SESSREQ");
        },
    }
}

proof fn address_arg(who1: Address, who2: Address)
    requires
        seq![who1.xdr()] == seq![who2.xdr()],
    ensures
        who1 == who2,
{
    let left = seq![who1.xdr()];
    let right = seq![who2.xdr()];
    assert(left[0] == right[0]);
    address_xdr_is_injective(who1, who2);
}

proof fn number_arg(n1: u64, n2: u64)
    requires
        seq![be8(n1)] == seq![be8(n2)],
    ensures
        n1 == n2,
{
    let left = seq![be8(n1)];
    let right = seq![be8(n2)];
    assert(left[0] == right[0]);
    be8_injective(n1, n2);
}

proof fn number_number_args(outer1: u64, inner1: u64, outer2: u64, inner2: u64)
    requires
        seq![be8(outer1), be8(inner1)] == seq![be8(outer2), be8(inner2)],
    ensures
        outer1 == outer2,
        inner1 == inner2,
{
    let left = seq![be8(outer1), be8(inner1)];
    let right = seq![be8(outer2), be8(inner2)];
    assert(left[0] == right[0]);
    be8_injective(outer1, outer2);
    assert(left[1] == right[1]);
    be8_injective(inner1, inner2);
}

proof fn address_number_args(who1: Address, n1: u64, who2: Address, n2: u64)
    requires
        seq![who1.xdr(), be8(n1)] == seq![who2.xdr(), be8(n2)],
    ensures
        who1 == who2,
        n1 == n2,
{
    let left = seq![who1.xdr(), be8(n1)];
    let right = seq![who2.xdr(), be8(n2)];
    assert(left[0] == right[0]);
    address_xdr_is_injective(who1, who2);
    assert(left[1] == right[1]);
    be8_injective(n1, n2);
}

proof fn address_small_number_args(who1: Address, n1: u32, who2: Address, n2: u32)
    requires
        seq![who1.xdr(), be4(n1)] == seq![who2.xdr(), be4(n2)],
    ensures
        who1 == who2,
        n1 == n2,
{
    let left = seq![who1.xdr(), be4(n1)];
    let right = seq![who2.xdr(), be4(n2)];
    assert(left[0] == right[0]);
    address_xdr_is_injective(who1, who2);
    assert(left[1] == right[1]);
    be4_injective(n1, n2);
}

proof fn text_arg(text1: Seq<char>, text2: Seq<char>)
    requires
        seq![text_xdr(text1)] == seq![text_xdr(text2)],
        text_xdr(text1).len() <= u32::MAX,
    ensures
        text1 == text2,
{
    let left = seq![text_xdr(text1)];
    let right = seq![text_xdr(text2)];
    assert(left[0] == right[0]);
    text_xdr_is_injective(text1, text2);
}

proof fn raw_text_arg(text1: Seq<char>, text2: Seq<char>)
    requires
        seq![encode_utf8(text1)] == seq![encode_utf8(text2)],
    ensures
        text1 == text2,
{
    let left = seq![encode_utf8(text1)];
    let right = seq![encode_utf8(text2)];
    assert(left[0] == right[0]);
    encode_utf8_decode_utf8(text1);
    encode_utf8_decode_utf8(text2);
}

proof fn address_text_args(who1: Address, text1: Seq<char>, who2: Address, text2: Seq<char>)
    requires
        seq![who1.xdr(), text_xdr(text1)] == seq![who2.xdr(), text_xdr(text2)],
        text_xdr(text1).len() <= u32::MAX,
    ensures
        who1 == who2,
        text1 == text2,
{
    let left = seq![who1.xdr(), text_xdr(text1)];
    let right = seq![who2.xdr(), text_xdr(text2)];
    assert(left[0] == right[0]);
    address_xdr_is_injective(who1, who2);
    assert(left[1] == right[1]);
    text_xdr_is_injective(text1, text2);
}

proof fn address_text_number_args(
    who1: Address,
    text1: Seq<char>,
    n1: u64,
    who2: Address,
    text2: Seq<char>,
    n2: u64,
)
    requires
        seq![who1.xdr(), text_xdr(text1), be8(n1)] == seq![who2.xdr(), text_xdr(text2), be8(n2)],
        text_xdr(text1).len() <= u32::MAX,
    ensures
        who1 == who2,
        text1 == text2,
        n1 == n2,
{
    let left = seq![who1.xdr(), text_xdr(text1), be8(n1)];
    let right = seq![who2.xdr(), text_xdr(text2), be8(n2)];
    assert(left[0] == right[0]);
    address_xdr_is_injective(who1, who2);
    assert(left[1] == right[1]);
    text_xdr_is_injective(text1, text2);
    assert(left[2] == right[2]);
    be8_injective(n1, n2);
}

proof fn role_address_args(role1: AdminRole, who1: Address, role2: AdminRole, who2: Address)
    requires
        seq![seq![role_byte(role1)], who1.xdr()] == seq![seq![role_byte(role2)], who2.xdr()],
    ensures
        role1 == role2,
        who1 == who2,
{
    let left = seq![seq![role_byte(role1)], who1.xdr()];
    let right = seq![seq![role_byte(role2)], who2.xdr()];
    assert(left[0] == right[0]);
    assert(left[0][0] == role_byte(role1));
    assert(right[0][0] == role_byte(role2));
    assert(left[1] == right[1]);
    address_xdr_is_injective(who1, who2);
}

proof fn capability_address_args(
    cap1: AdminCapability,
    who1: Address,
    cap2: AdminCapability,
    who2: Address,
)
    requires
        seq![seq![capability_byte(cap1)], who1.xdr()] == seq![seq![capability_byte(cap2)], who2.xdr()],
    ensures
        cap1 == cap2,
        who1 == who2,
{
    let left = seq![seq![capability_byte(cap1)], who1.xdr()];
    let right = seq![seq![capability_byte(cap2)], who2.xdr()];
    assert(left[0] == right[0]);
    assert(left[0][0] == capability_byte(cap1));
    assert(right[0][0] == capability_byte(cap2));
    assert(left[1] == right[1]);
    address_xdr_is_injective(who1, who2);
}

proof fn address_bytes_args(who1: Address, bytes1: Seq<u8>, who2: Address, bytes2: Seq<u8>)
    requires
        seq![who1.xdr(), bytes1] == seq![who2.xdr(), bytes2],
    ensures
        who1 == who2,
        bytes1 == bytes2,
{
    let left = seq![who1.xdr(), bytes1];
    let right = seq![who2.xdr(), bytes2];
    assert(left[0] == right[0]);
    address_xdr_is_injective(who1, who2);
    assert(left[1] == right[1]);
}

proof fn number_bytes_args(n1: u64, bytes1: Seq<u8>, n2: u64, bytes2: Seq<u8>)
    requires
        seq![be8(n1), bytes1] == seq![be8(n2), bytes2],
    ensures
        n1 == n2,
        bytes1 == bytes2,
{
    let left = seq![be8(n1), bytes1];
    let right = seq![be8(n2), bytes2];
    assert(left[0] == right[0]);
    be8_injective(n1, n2);
    assert(left[1] == right[1]);
}

/// Keys of one kind with equal values name the same record.
proof fn args_are_unique(a: StorageKey, b: StorageKey)
    requires
        kind(a) == kind(b),
        a.args() == b.args(),
        a.lengths_fit(),
    ensures
        a.names_same(b),
{
    match a {
        StorageKey::Of(_, who) => {
            assert(b is Of);
            address_arg(who, b->Of_1);
        },
        StorageKey::Numbered(_, n) => {
            assert(b is Numbered);
            number_arg(n, b->Numbered_1);
        },
        StorageKey::QuoteOf(_, who, n) => {
            assert(b is QuoteOf);
            address_number_args(who, n, b->QuoteOf_1, b->QuoteOf_2);
        },
        StorageKey::CheckOf(_, who, text) => {
            assert(b is CheckOf);
            assert(a.args()[1] == text_xdr(text@));
            address_text_args(who, text@, b->CheckOf_1, b->CheckOf_2@);
        },
        StorageKey::SessionLog(outer, inner) => {
            assert(b is SessionLog);
            number_number_args(outer, inner, b->SessionLog_0, b->SessionLog_1);
        },
        StorageKey::MetaVersion(who, n) => {
            assert(b is MetaVersion);
            address_small_number_args(who, n, b->MetaVersion_0, b->MetaVersion_1);
        },
        StorageKey::Cluster(text) => {
            assert(b is Cluster);
            assert(a.args()[0] == text_xdr(text@));
            text_arg(text@, b->Cluster_0@);
        },
        StorageKey::NetworkProfile(text) => {
            assert(b is NetworkProfile);
            raw_text_arg(text@, b->NetworkProfile_0@);
        },
        StorageKey::ComplianceEntry(who, text, n) => {
            assert(b is ComplianceEntry);
            assert(a.args()[1] == text_xdr(text@));
            address_text_number_args(
                who,
                text@,
                n,
                b->ComplianceEntry_0,
                b->ComplianceEntry_1@,
                b->ComplianceEntry_2,
            );
        },
        StorageKey::Role(role, who) => {
            assert(b is Role);
            role_address_args(role, who, b->Role_0, b->Role_1);
        },
        StorageKey::Capability(cap, who) => {
            assert(b is Capability);
            capability_address_args(cap, who, b->Capability_0, b->Capability_1);
        },
        StorageKey::UsedPayload(who, bytes) => {
            assert(b is UsedPayload);
            address_bytes_args(who, bytes@, b->UsedPayload_0, b->UsedPayload_1@);
        },
        StorageKey::SessionPayload(n, bytes) => {
            assert(b is SessionPayload);
            number_bytes_args(n, bytes@, b->SessionPayload_0, b->SessionPayload_1@);
        },
        _ => {},
    }
}

/// Keys whose hashed bytes are equal name the same record: neither two kinds
/// of record nor two records of one kind share a key input.
pub proof fn key_inputs_are_unique(a: StorageKey, b: StorageKey)
    requires
        framed_all(a.parts()) == framed_all(b.parts()),
        framed_all(a.parts()).len() <= u32::MAX,
    ensures
        a.names_same(b),
{
    assert forall|i: int| 0 <= i < a.parts().len() implies (#[trigger] a.parts()[i]).len()
        <= u32::MAX by {
        framed_covers(a.parts(), i);
    }
    assert forall|i: int| 0 <= i < b.parts().len() implies (#[trigger] b.parts()[i]).len()
        <= u32::MAX by {
        framed_covers(b.parts(), i);
    }
    storage_key_input_is_injective(a.parts(), b.parts());
    assert(a.parts()[0] == encode_utf8(a.prefix()));
    assert(b.parts()[0] == encode_utf8(b.prefix()));
    encode_utf8_decode_utf8(a.prefix());
    encode_utf8_decode_utf8(b.prefix());
    kind_is_mark(a);
    kind_is_mark(b);
    assert(a.args() =~= a.parts().skip(1));
    assert(b.args() =~= b.parts().skip(1));
    assert forall|i: int| 0 <= i < a.args().len() implies (#[trigger] a.args()[i]).len()
        <= u32::MAX by {
        assert(a.args()[i] == a.parts()[i + 1]);
    }
    args_are_unique(a, b);
}

} // verus!
