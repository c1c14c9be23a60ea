//! API versions: which one a path asks for, and how responses announce that a
//! version is going away.
use crate::text::{chars_of, same_text};
use vstd::prelude::*;
use vstd::string::*;

verus! {

/// A version of the API.
#[derive(Debug, Clone, Copy, PartialEq, Eq, PartialOrd, Ord, Structural)]
pub enum ApiVersion {
    V1,
    V2,
}

/// Whether `s` starts with `prefix`.
pub open spec fn starts_with(s: Seq<char>, prefix: Seq<char>) -> bool {
    prefix.len() <= s.len() && s.take(prefix.len() as int) == prefix
}

fn has_prefix(s: &str, prefix: &str) -> (r: bool)
    ensures
        r == starts_with(s@, prefix@),
{
    let a: Vec<char> = chars_of(s);
    let b: Vec<char> = chars_of(prefix);
    if b.len() > a.len() {
        return false;
    }
    let mut i: usize = 0;
    while i < b.len()
        invariant
            a@ == s@,
            b@ == prefix@,
            b@.len() <= a@.len(),
            0 <= i <= b@.len(),
            forall|j: int| 0 <= j < i ==> a@[j] == b@[j],
        decreases b@.len() - i,
    {
        if a[i] != b[i] {
            assert(s@.take(prefix@.len() as int)[i as int] != prefix@[i as int]);
            return false;
        }
        i = i + 1;
    }
    assert(s@.take(prefix@.len() as int) =~= prefix@);
    true
}

/// The version that a path asks for.
pub open spec fn version_of_path(path: Seq<char>) -> Option<ApiVersion> {
    if starts_with(path, "/v1/"@) || path == "/v1"@ {
        Some(ApiVersion::V1)
    } else if starts_with(path, "/v2/"@) || path == "/v2"@ {
        Some(ApiVersion::V2)
    } else {
        None
    }
}

impl ApiVersion {
    /// The name of the version in paths.
    pub open spec fn name(self) -> Seq<char> {
        match self {
            ApiVersion::V1 => "v1"@,
            ApiVersion::V2 => "v2"@,
        }
    }

    /// The version in front of a request path.
    pub fn from_path_prefix(path: &str) -> (r: Option<Self>)
        ensures
            r == version_of_path(path@),
    {
        if has_prefix(path, "/v1/") || same_text(path, "/v1") {
            Some(ApiVersion::V1)
        } else if has_prefix(path, "/v2/") || same_text(path, "/v2") {
            Some(ApiVersion::V2)
        } else {
            None
        }
    }

    /// Whether the version is going away.
    pub fn is_deprecated(self) -> (r: bool)
        ensures
            r == (self == ApiVersion::V1),
    {
        match self {
            ApiVersion::V1 => true,
            ApiVersion::V2 => false,
        }
    }

    /// The date after which the version is removed.
    pub fn sunset_date(self) -> (r: Option<&'static str>)
        ensures
            match self {
                ApiVersion::V1 => r is Some && r->0@ == "2026-12-01"@,
                ApiVersion::V2 => r is None,
            },
    {
        match self {
            ApiVersion::V1 => Some("2026-12-01"),
            ApiVersion::V2 => None,
        }
    }

    /// The name of the version.
    pub fn as_str(self) -> (r: &'static str)
        ensures
            r@ == self.name(),
    {
        match self {
            ApiVersion::V1 => "v1",
            ApiVersion::V2 => "v2",
        }
    }
}

/// What a response says of a version that is going away.
#[derive(Debug, Clone, PartialEq)]
pub struct DeprecationMeta {
    pub version: String,
    pub sunset: String,
    pub migration_notice: String,
}

/// A response with its version.
#[derive(Debug, Clone)]
pub struct ResponseEnvelope<T> {
    pub version: String,
    pub data: T,
    pub deprecation: Option<DeprecationMeta>,
}

/// The current version and those that are served.
#[derive(Debug)]
pub struct VersionPolicy {
    pub current: ApiVersion,
    pub supported: Vec<ApiVersion>,
}

impl Default for VersionPolicy {
    fn default() -> (p: Self)
        ensures
            p.current == ApiVersion::V2,
            p.supported@ == seq![ApiVersion::V1, ApiVersion::V2],
    {
        let mut supported: Vec<ApiVersion> = Vec::new();
        supported.push(ApiVersion::V1);
        supported.push(ApiVersion::V2);
        assert(supported@ =~= seq![ApiVersion::V1, ApiVersion::V2]);
        VersionPolicy { current: ApiVersion::V2, supported }
    }
}

/// The notice that sends callers of `version` to `current`.
pub open spec fn notice(version: ApiVersion, current: ApiVersion) -> Seq<char> {
    "This endpoint version ("@ + version.name() + ") is deprecated. Migrate to /"@ + current.name()
        + "/."@
}

impl VersionPolicy {
    /// The version of a request path, if it is served.
    pub fn resolve(&self, path: &str) -> (r: Option<ApiVersion>)
        ensures
            r == (match version_of_path(path@) {
                Some(v) => if self.supported@.contains(v) {
                    Some(v)
                } else {
                    None
                },
                None => None,
            }),
    {
        match ApiVersion::from_path_prefix(path) {
            None => None,
            Some(v) => {
                let mut i: usize = 0;
                while i < self.supported.len()
                    invariant
                        version_of_path(path@) == Some(v),
                        0 <= i <= self.supported@.len(),
                        forall|j: int| 0 <= j < i ==> self.supported@[j] != v,
                    decreases self.supported@.len() - i,
                {
                    if self.supported[i] == v {
                        return Some(v);
                    }
                    i = i + 1;
                }
                None
            },
        }
    }

    /// Wraps `data`, with a deprecation notice where the version has one.
    pub fn wrap<T>(&self, version: ApiVersion, data: T) -> (e: ResponseEnvelope<T>)
        ensures
            e.version@ == version.name(),
            e.data == data,
            match version {
                ApiVersion::V1 => e.deprecation is Some && {
                    let d = e.deprecation->0;
                    &&& d.version@ == version.name()
                    &&& d.sunset@ == "2026-12-01"@
                    &&& d.migration_notice@ == notice(version, self.current)
                },
                ApiVersion::V2 => e.deprecation is None,
            },
    {
        let deprecation: Option<DeprecationMeta> = if version.is_deprecated() {
            let mut text: String = "This endpoint version (".to_owned();
            text.append(version.as_str());
            text.append(") is deprecated. Migrate to /");
            text.append(self.current.as_str());
            text.append("/.");
            let sunset: &str = match version.sunset_date() {
                Some(d) => d,
                None => "",
            };
            Some(
                DeprecationMeta {
                    version: version.as_str().to_owned(),
                    sunset: sunset.to_owned(),
                    migration_notice: text,
                },
            )
        } else {
            None
        };
        ResponseEnvelope { version: version.as_str().to_owned(), data, deprecation }
    }
}

/// One field of a response schema.
#[derive(Debug, Clone, PartialEq)]
pub struct FieldDescriptor {
    pub name: String,
    pub required: bool,
}

/// A response schema as it stood at a version.
#[derive(Debug, Clone)]
pub struct SchemaSnapshot {
    pub version: ApiVersion,
    pub endpoint: String,
    pub fields: Vec<FieldDescriptor>,
}

/// Whether a field of that name is listed.
pub open spec fn lists(fields: Seq<FieldDescriptor>, name: Seq<char>) -> bool {
    exists|i: int| 0 <= i < fields.len() && (#[trigger] fields[i]).name@ == name
}

/// The names in `base`, in order, that `current` does not list.
pub open spec fn missing_names(
    base: Seq<FieldDescriptor>,
    current: Seq<FieldDescriptor>,
) -> Seq<Seq<char>>
    decreases base.len(),
{
    if base.len() == 0 {
        Seq::empty()
    } else {
        let rest = missing_names(base.drop_last(), current);
        if lists(current, base.last().name@) {
            rest
        } else {
            rest.push(base.last().name@)
        }
    }
}

fn is_listed(fields: &Vec<FieldDescriptor>, name: &String) -> (r: bool)
    ensures
        r == lists(fields@, name@),
{
    let mut i: usize = 0;
    while i < fields.len()
        invariant
            0 <= i <= fields@.len(),
            forall|j: int| 0 <= j < i ==> (#[trigger] fields@[j]).name@ != name@,
        decreases fields@.len() - i,
    {
        if fields[i].name == *name {
            return true;
        }
        i = i + 1;
    }
    false
}

impl SchemaSnapshot {
    /// The names of the fields of `baseline` that `current` lacks, in order.
    /// Each is a breaking change.
    pub fn breaking_removals<'a>(baseline: &'a Self, current: &'a Self) -> (r: Vec<&'a str>)
        ensures
            r@.map_values(|s: &str| s@) == missing_names(baseline.fields@, current.fields@),
    {
        let n: usize = baseline.fields.len();
        let mut out: Vec<&'a str> = Vec::new();
        let mut i: usize = 0;
        assert(out@.map_values(|s: &str| s@) =~= missing_names(
            baseline.fields@.take(0),
            current.fields@,
        ));
        while i < n
            invariant
                n == baseline.fields@.len(),
                0 <= i <= n,
                out@.map_values(|s: &str| s@) == missing_names(
                    baseline.fields@.take(i as int),
                    current.fields@,
                ),
            decreases n - i,
        {
            let name: &String = &baseline.fields[i].name;
            let ghost before = out@;
            if !is_listed(&current.fields, name) {
                out.push(name.as_str());
                assert(out@.map_values(|s: &str| s@) =~= before.map_values(|s: &str| s@).push(name@));
            }
            proof {
                let next = baseline.fields@.take(i + 1);
                assert(next.drop_last() =~= baseline.fields@.take(i as int));
            }
            i = i + 1;
        }
        assert(baseline.fields@.take(n as int) =~= baseline.fields@);
        out
    }
}

/// A schema that keeps every field has no breaking removal, and a removed
/// field is always reported.
pub proof fn removals_are_the_missing_fields(
    base: Seq<FieldDescriptor>,
    current: Seq<FieldDescriptor>,
    name: Seq<char>,
)
    ensures
        missing_names(base, current).contains(name) <==> lists(base, name) && !lists(current, name),
    decreases base.len(),
{
    let all = missing_names(base, current);
    if base.len() > 0 {
        let init = base.drop_last();
        let rest = missing_names(init, current);
        removals_are_the_missing_fields(init, current, name);
        if lists(init, name) {
            let i = choose|i: int| 0 <= i < init.len() && (#[trigger] init[i]).name@ == name;
            assert(base[i].name@ == name);
        }
        if lists(base, name) && base.last().name@ != name {
            let i = choose|i: int| 0 <= i < base.len() && (#[trigger] base[i]).name@ == name;
            assert(init[i].name@ == name);
        }
        if base.last().name@ == name {
            assert(base[base.len() - 1].name@ == name);
        }
        if !lists(current, base.last().name@) {
            assert(all.last() == base.last().name@);
            if rest.contains(name) {
                let i = choose|i: int| 0 <= i < rest.len() && rest[i] == name;
                assert(all[i] == name);
            }
            if all.contains(name) && base.last().name@ != name {
                let i = choose|i: int| 0 <= i < all.len() && all[i] == name;
                assert(rest[i] == name);
            }
            if base.last().name@ == name {
                assert(all[all.len() - 1] == name);
            }
        }
    }
}

} // verus!
