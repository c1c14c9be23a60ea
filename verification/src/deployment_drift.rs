//! Differences between an intended deployment and an observed one.
use crate::structured_log::events::DEPLOYMENT_DRIFT_DETECTED;
use crate::structured_log::{
    field_views, FieldValue, FieldView, LogLevel, RecordView, StructuredLogger,
};
use crate::text::{trimmed, uppered};
use vstd::prelude::*;
use vstd::string::*;

verus! {

/// A configuration key with its value.
#[derive(Clone, Debug, PartialEq)]
pub struct ConfigEntry {
    pub key: String,
    pub value: String,
}

impl ConfigEntry {
    /// An entry.
    pub fn new(key: &str, value: &str) -> (e: Self)
        ensures
            e.key@ == key@,
            e.value@ == value@,
    {
        ConfigEntry { key: key.to_owned(), value: value.to_owned() }
    }
}

/// The intended deployment of one environment.
#[derive(Clone, Debug, PartialEq)]
pub struct DeploymentSpec {
    pub environment: String,
    pub expected_version: String,
    pub expected_network: String,
    pub expected_admin: Option<String>,
    pub expected_config: Vec<ConfigEntry>,
}

/// The deployment as observed at one time.
#[derive(Clone, Debug, PartialEq)]
pub struct DeploymentSnapshot {
    pub environment: String,
    pub captured_at: u64,
    pub observed_version: String,
    pub observed_network: String,
    pub observed_admin: Option<String>,
    pub observed_config: Vec<ConfigEntry>,
}

/// How serious a difference is.
#[derive(Clone, Copy, Debug, PartialEq, Eq, PartialOrd, Ord, Structural)]
pub enum DriftSeverity {
    Low,
    Medium,
    Critical,
}

impl DriftSeverity {
    /// The rank of the severity, higher for more serious.
    pub open spec fn rank(self) -> int {
        match self {
            DriftSeverity::Low => 0,
            DriftSeverity::Medium => 1,
            DriftSeverity::Critical => 2,
        }
    }

    /// The name of the severity.
    pub fn label(&self) -> (r: &'static str)
        ensures
            r@ == (match *self {
                DriftSeverity::Low => "low"@,
                DriftSeverity::Medium => "medium"@,
                DriftSeverity::Critical => "critical"@,
            }),
    {
        match self {
            DriftSeverity::Low => "low",
            DriftSeverity::Medium => "medium",
            DriftSeverity::Critical => "critical",
        }
    }

    fn at_least(self, min: DriftSeverity) -> (r: bool)
        ensures
            r == (self.rank() >= min.rank()),
    {
        match (self, min) {
            (_, DriftSeverity::Low) => true,
            (DriftSeverity::Critical, _) => true,
            (DriftSeverity::Medium, DriftSeverity::Medium) => true,
            _ => false,
        }
    }
}

/// One difference.
#[derive(Clone, Debug, PartialEq)]
pub struct DriftItem {
    pub field: String,
    pub severity: DriftSeverity,
    pub expected: Option<String>,
    pub observed: Option<String>,
    pub description: String,
}

/// What a difference says.
pub struct ItemView {
    pub field: Seq<char>,
    pub severity: DriftSeverity,
    pub expected: Option<Seq<char>>,
    pub observed: Option<Seq<char>>,
    pub description: Seq<char>,
}

/// The characters of an optional text.
pub open spec fn chars(s: Option<String>) -> Option<Seq<char>> {
    match s {
        Some(t) => Some(t@),
        None => None,
    }
}

impl View for DriftItem {
    type V = ItemView;

    open spec fn view(&self) -> ItemView {
        ItemView {
            field: self.field@,
            severity: self.severity,
            expected: chars(self.expected),
            observed: chars(self.observed),
            description: self.description@,
        }
    }
}

/// What a list of differences says.
pub open spec fn item_views(items: Seq<DriftItem>) -> Seq<ItemView> {
    items.map_values(|i: DriftItem| i@)
}

/// All differences of one deployment, the most serious first.
#[derive(Debug)]
pub struct DriftReport {
    pub environment: String,
    pub snapshot_captured_at: u64,
    pub items: Vec<DriftItem>,
    pub is_clean: bool,
    pub critical_count: usize,
    pub medium_count: usize,
    pub low_count: usize,
}

impl DriftReport {
    /// Whether a critical difference was found.
    pub fn has_critical(&self) -> (r: bool)
        ensures
            r == (self.critical_count > 0),
    {
        self.critical_count > 0
    }

    /// The differences of at least the given severity, in order.
    pub fn items_at_or_above(&self, min_severity: DriftSeverity) -> (r: Vec<&DriftItem>)
        ensures
            r@.map_values(|i: &DriftItem| *i) == self.items@.filter(
                |i: DriftItem| i.severity.rank() >= min_severity.rank(),
            ),
    {
        let keep = Ghost(|i: DriftItem| i.severity.rank() >= min_severity.rank());
        let n: usize = self.items.len();
        let mut out: Vec<&DriftItem> = Vec::new();
        let mut i: usize = 0;
        proof {
            reveal(Seq::filter);
            assert(out@.map_values(|i: &DriftItem| *i) =~= self.items@.take(0).filter(keep@));
        }
        while i < n
            invariant
                n == self.items@.len(),
                0 <= i <= n,
                keep@ == (|i: DriftItem| i.severity.rank() >= min_severity.rank()),
                out@.map_values(|i: &DriftItem| *i) == self.items@.take(i as int).filter(keep@),
            decreases n - i,
        {
            let item: &DriftItem = &self.items[i];
            let ghost before = out@;
            if item.severity.at_least(min_severity) {
                out.push(item);
                assert(out@.map_values(|i: &DriftItem| *i) =~= before.map_values(
                    |i: &DriftItem| *i,
                ).push(*item));
            }
            proof {
                reveal(Seq::filter);
                let next = self.items@.take(i + 1);
                assert(next.drop_last() =~= self.items@.take(i as int));
                assert(next.last() == *item);
            }
            i = i + 1;
        }
        assert(self.items@.take(n as int) =~= self.items@);
        out
    }
}

/// A difference in the version or the network: `what` is its field, and the
/// description puts the observed value between `before` and `middle`.
pub open spec fn value_item(
    field: Seq<char>,
    expected: Seq<char>,
    observed: Seq<char>,
    before: Seq<char>,
) -> ItemView {
    ItemView {
        field,
        severity: DriftSeverity::Critical,
        expected: Some(expected),
        observed: Some(observed),
        description: before + observed + "' differs from expected '"@ + expected + "'"@,
    }
}

/// The difference in the version.
pub open spec fn version_items(spec: DeploymentSpec, snap: DeploymentSnapshot) -> Seq<ItemView> {
    if spec.expected_version@ == snap.observed_version@ {
        Seq::empty()
    } else {
        seq![
            value_item(
                "version"@,
                spec.expected_version@,
                snap.observed_version@,
                "deployed version '"@,
            ),
        ]
    }
}

/// The difference in the network.
pub open spec fn network_items(spec: DeploymentSpec, snap: DeploymentSnapshot) -> Seq<ItemView> {
    if spec.expected_network@ == snap.observed_network@ {
        Seq::empty()
    } else {
        seq![value_item("network"@, spec.expected_network@, snap.observed_network@, "network '"@)]
    }
}

/// Two admin addresses are the same up to surrounding white space and case.
pub open spec fn same_admin(a: Seq<char>, b: Seq<char>) -> bool {
    uppered(trimmed(a)) == uppered(trimmed(b))
}

/// The difference in the admin address.
pub open spec fn admin_items(spec: DeploymentSpec, snap: DeploymentSnapshot) -> Seq<ItemView> {
    match (spec.expected_admin, snap.observed_admin) {
        (Some(e), Some(o)) => if same_admin(e@, o@) {
            Seq::empty()
        } else {
            seq![value_item("admin"@, e@, o@, "admin address '"@)]
        },
        (Some(e), None) => seq![
            ItemView {
                field: "admin"@,
                severity: DriftSeverity::Critical,
                expected: Some(e@),
                observed: None,
                description: "expected admin address is absent in snapshot"@,
            },
        ],
        (None, Some(o)) => seq![
            ItemView {
                field: "admin"@,
                severity: DriftSeverity::Medium,
                expected: None,
                observed: Some(o@),
                description: "unexpected admin address '"@ + o@ + "' found in snapshot"@,
            },
        ],
        (None, None) => Seq::empty(),
    }
}

/// The first entry with the key.
pub open spec fn entry_at(entries: Seq<ConfigEntry>, key: Seq<char>) -> Option<Seq<char>>
    decreases entries.len(),
{
    if entries.len() == 0 {
        None
    } else if entries[0].key@ == key {
        Some(entries[0].value@)
    } else {
        entry_at(entries.skip(1), key)
    }
}

/// The difference for one expected entry.
pub open spec fn expected_item(e: ConfigEntry, observed: Seq<ConfigEntry>) -> Option<ItemView> {
    match entry_at(observed, e.key@) {
        None => Some(
            ItemView {
                field: "config."@ + e.key@,
                severity: DriftSeverity::Medium,
                expected: Some(e.value@),
                observed: None,
                description: "expected config key '"@ + e.key@ + "' is absent in snapshot"@,
            },
        ),
        Some(v) => if v == e.value@ {
            None
        } else {
            Some(
                ItemView {
                    field: "config."@ + e.key@,
                    severity: DriftSeverity::Medium,
                    expected: Some(e.value@),
                    observed: Some(v),
                    description: "config key '"@ + e.key@ + "': observed '"@ + v + "', expected '"@
                        + e.value@ + "'"@,
                },
            )
        },
    }
}

/// The difference for one observed entry.
pub open spec fn observed_item(o: ConfigEntry, expected: Seq<ConfigEntry>) -> Option<ItemView> {
    match entry_at(expected, o.key@) {
        Some(_) => None,
        None => Some(
            ItemView {
                field: "config."@ + o.key@,
                severity: DriftSeverity::Low,
                expected: None,
                observed: Some(o.value@),
                description: "config key '"@ + o.key@ + "' is present in snapshot but not in spec"@,
            },
        ),
    }
}

/// A sequence with the item appended where there is one.
pub open spec fn with_item(s: Seq<ItemView>, i: Option<ItemView>) -> Seq<ItemView> {
    match i {
        Some(v) => s.push(v),
        None => s,
    }
}

/// The differences of the expected entries, in order.
pub open spec fn expected_items(
    expected: Seq<ConfigEntry>,
    observed: Seq<ConfigEntry>,
) -> Seq<ItemView>
    decreases expected.len(),
{
    if expected.len() == 0 {
        Seq::empty()
    } else {
        with_item(
            expected_items(expected.drop_last(), observed),
            expected_item(expected.last(), observed),
        )
    }
}

/// The differences of the observed entries, in order.
pub open spec fn observed_items(
    observed: Seq<ConfigEntry>,
    expected: Seq<ConfigEntry>,
) -> Seq<ItemView>
    decreases observed.len(),
{
    if observed.len() == 0 {
        Seq::empty()
    } else {
        with_item(
            observed_items(observed.drop_last(), expected),
            observed_item(observed.last(), expected),
        )
    }
}

/// The critical differences, in the order in which they are looked for.
pub open spec fn critical_items(spec: DeploymentSpec, snap: DeploymentSnapshot) -> Seq<ItemView> {
    version_items(spec, snap) + network_items(spec, snap) + (if spec.expected_admin is Some {
        admin_items(spec, snap)
    } else {
        Seq::empty()
    })
}

/// The medium differences, in the order in which they are looked for.
pub open spec fn medium_items(spec: DeploymentSpec, snap: DeploymentSnapshot) -> Seq<ItemView> {
    (if spec.expected_admin is Some {
        Seq::empty()
    } else {
        admin_items(spec, snap)
    }) + expected_items(spec.expected_config@, snap.observed_config@)
}

/// The low differences, in the order in which they are looked for.
pub open spec fn low_items(spec: DeploymentSpec, snap: DeploymentSnapshot) -> Seq<ItemView> {
    observed_items(snap.observed_config@, spec.expected_config@)
}

/// All differences, the most serious first, and in the order in which they are
/// looked for among those of one severity.
pub open spec fn drift_items(spec: DeploymentSpec, snap: DeploymentSnapshot) -> Seq<ItemView> {
    critical_items(spec, snap) + medium_items(spec, snap) + low_items(spec, snap)
}

/// The severity of each group of differences is the one it is named for.
pub proof fn items_have_their_severity(spec: DeploymentSpec, snap: DeploymentSnapshot)
    ensures
        forall|i: int|
            0 <= i < critical_items(spec, snap).len() ==> (#[trigger] critical_items(
                spec,
                snap,
            )[i]).severity == DriftSeverity::Critical,
        forall|i: int|
            0 <= i < medium_items(spec, snap).len() ==> (#[trigger] medium_items(
                spec,
                snap,
            )[i]).severity == DriftSeverity::Medium,
        forall|i: int|
            0 <= i < low_items(spec, snap).len() ==> (#[trigger] low_items(spec, snap)[i]).severity
                == DriftSeverity::Low,
{
    expected_are_medium(spec.expected_config@, snap.observed_config@);
    observed_are_low(snap.observed_config@, spec.expected_config@);
}

proof fn expected_are_medium(expected: Seq<ConfigEntry>, observed: Seq<ConfigEntry>)
    ensures
        forall|i: int|
            0 <= i < expected_items(expected, observed).len() ==> (#[trigger] expected_items(
                expected,
                observed,
            )[i]).severity == DriftSeverity::Medium,
    decreases expected.len(),
{
    if expected.len() > 0 {
        expected_are_medium(expected.drop_last(), observed);
    }
}

proof fn observed_are_low(observed: Seq<ConfigEntry>, expected: Seq<ConfigEntry>)
    ensures
        forall|i: int|
            0 <= i < observed_items(observed, expected).len() ==> (#[trigger] observed_items(
                observed,
                expected,
            )[i]).severity == DriftSeverity::Low,
    decreases observed.len(),
{
    if observed.len() > 0 {
        observed_are_low(observed.drop_last(), expected);
    }
}

/// Reports list the differences by falling severity.
pub proof fn items_fall_in_severity(spec: DeploymentSpec, snap: DeploymentSnapshot, i: int, j: int)
    requires
        0 <= i <= j < drift_items(spec, snap).len(),
    ensures
        drift_items(spec, snap)[i].severity.rank() >= drift_items(spec, snap)[j].severity.rank(),
{
    items_have_their_severity(spec, snap);
    let c = critical_items(spec, snap);
    let m = medium_items(spec, snap);
    let l = low_items(spec, snap);
    let all = drift_items(spec, snap);
    let nc = c.len() as int;
    let nm = m.len() as int;
    assert(i < nc ==> all[i] == c[i]);
    assert(nc <= i < nc + nm ==> all[i] == m[i - nc]);
    assert(nc + nm <= i ==> all[i] == l[i - nc - nm]);
    assert(j < nc ==> all[j] == c[j]);
    assert(nc <= j < nc + nm ==> all[j] == m[j - nc]);
    assert(nc + nm <= j ==> all[j] == l[j - nc - nm]);
}

fn join3(a: &str, b: &str, c: &str) -> (s: String)
    ensures
        s@ == a@ + b@ + c@,
{
    let mut s: String = a.to_owned();
    s.append(b);
    s.append(c);
    s
}

fn config_field(key: &String) -> (s: String)
    ensures
        s@ == "config."@ + key@,
{
    let mut s: String = "config.".to_owned();
    s.append(key.as_str());
    s
}

fn make_value_item(field: &str, expected: &String, observed: &String, before: &str) -> (i: DriftItem)
    ensures
        i@ == value_item(field@, expected@, observed@, before@),
{
    let mut d: String = before.to_owned();
    d.append(observed.as_str());
    d.append("' differs from expected '");
    d.append(expected.as_str());
    d.append("'");
    DriftItem {
        field: field.to_owned(),
        severity: DriftSeverity::Critical,
        expected: Some(expected.clone()),
        observed: Some(observed.clone()),
        description: d,
    }
}

fn find_entry<'a>(entries: &'a Vec<ConfigEntry>, key: &String) -> (r: Option<&'a String>)
    ensures
        match r {
            Some(v) => entry_at(entries@, key@) == Some(v@),
            None => entry_at(entries@, key@) is None,
        },
{
    let n: usize = entries.len();
    let mut i: usize = 0;
    assert(entries@.skip(0) =~= entries@);
    while i < n
        invariant
            n == entries@.len(),
            0 <= i <= n,
            entry_at(entries@, key@) == entry_at(entries@.skip(i as int), key@),
        decreases n - i,
    {
        assert(entries@.skip(i as int)[0] == entries@[i as int]);
        if entries[i].key == *key {
            return Some(&entries[i].value);
        }
        assert(entries@.skip(i as int).skip(1) =~= entries@.skip(i + 1));
        i = i + 1;
    }
    assert(entries@.skip(n as int).len() == 0);
    None
}

fn check_expected(e: &ConfigEntry, observed: &Vec<ConfigEntry>) -> (r: Option<DriftItem>)
    ensures
        match r {
            Some(i) => expected_item(*e, observed@) == Some(i@),
            None => expected_item(*e, observed@) is None,
        },
{
    match find_entry(observed, &e.key) {
        None => Some(
            DriftItem {
                field: config_field(&e.key),
                severity: DriftSeverity::Medium,
                expected: Some(e.value.clone()),
                observed: None,
                description: join3(
                    "expected config key '",
                    e.key.as_str(),
                    "' is absent in snapshot",
                ),
            },
        ),
        Some(v) => {
            if *v == e.value {
                None
            } else {
                let mut d: String = join3("config key '", e.key.as_str(), "': observed '");
                d.append(v.as_str());
                d.append("', expected '");
                d.append(e.value.as_str());
                d.append("'");
                Some(
                    DriftItem {
                        field: config_field(&e.key),
                        severity: DriftSeverity::Medium,
                        expected: Some(e.value.clone()),
                        observed: Some(v.clone()),
                        description: d,
                    },
                )
            }
        },
    }
}

fn check_observed(o: &ConfigEntry, expected: &Vec<ConfigEntry>) -> (r: Option<DriftItem>)
    ensures
        match r {
            Some(i) => observed_item(*o, expected@) == Some(i@),
            None => observed_item(*o, expected@) is None,
        },
{
    match find_entry(expected, &o.key) {
        Some(_) => None,
        None => Some(
            DriftItem {
                field: config_field(&o.key),
                severity: DriftSeverity::Low,
                expected: None,
                observed: Some(o.value.clone()),
                description: join3(
                    "config key '",
                    o.key.as_str(),
                    "' is present in snapshot but not in spec",
                ),
            },
        ),
    }
}

fn push_item(items: &mut Vec<DriftItem>, item: DriftItem)
    ensures
        item_views(final(items)@) == item_views(old(items)@).push(item@),
{
    let ghost before = item_views(items@);
    items.push(item);
    assert(item_views(items@) =~= before.push(item@));
}

fn push_admin(
    spec: &DeploymentSpec,
    snapshot: &DeploymentSnapshot,
    critical: &mut Vec<DriftItem>,
    medium: &mut Vec<DriftItem>,
)
    ensures
        spec.expected_admin is Some ==> item_views(final(critical)@) == item_views(old(critical)@)
            + admin_items(*spec, *snapshot) && final(medium)@ == old(medium)@,
        spec.expected_admin is None ==> item_views(final(medium)@) == item_views(old(medium)@)
            + admin_items(*spec, *snapshot) && final(critical)@ == old(critical)@,
{
    let ghost c0 = item_views(critical@);
    let ghost m0 = item_views(medium@);
    match (&spec.expected_admin, &snapshot.observed_admin) {
        (Some(e), Some(o)) => {
            let a: String = e.as_str().trim().to_ascii_uppercase();
            let b: String = o.as_str().trim().to_ascii_uppercase();
            if a != b {
                push_item(critical, make_value_item("admin", e, o, "admin address '"));
            }
        },
        (Some(e), None) => {
            push_item(
                critical,
                DriftItem {
                    field: "admin".to_owned(),
                    severity: DriftSeverity::Critical,
                    expected: Some(e.clone()),
                    observed: None,
                    description: "expected admin address is absent in snapshot".to_owned(),
                },
            );
        },
        (None, Some(o)) => {
            push_item(
                medium,
                DriftItem {
                    field: "admin".to_owned(),
                    severity: DriftSeverity::Medium,
                    expected: None,
                    observed: Some(o.clone()),
                    description: join3(
                        "unexpected admin address '",
                        o.as_str(),
                        "' found in snapshot",
                    ),
                },
            );
        },
        (None, None) => {},
    }
    proof {
        if spec.expected_admin is Some {
            assert(item_views(critical@) =~= c0 + admin_items(*spec, *snapshot));
        } else {
            assert(item_views(medium@) =~= m0 + admin_items(*spec, *snapshot));
        }
    }
}

fn move_items(to: &mut Vec<DriftItem>, from: &mut Vec<DriftItem>)
    ensures
        item_views(final(to)@) == item_views(old(to)@) + item_views(old(from)@),
{
    let ghost a = to@;
    let ghost b = from@;
    to.append(from);
    assert(to@ =~= a + b);
    assert(item_views(to@) =~= item_views(a) + item_views(b));
}

/// Compares an intended deployment with an observed one.
pub fn detect_drift(spec: &DeploymentSpec, snapshot: &DeploymentSnapshot) -> (r: DriftReport)
    ensures
        r.environment@ == spec.environment@,
        r.snapshot_captured_at == snapshot.captured_at,
        item_views(r.items@) == drift_items(*spec, *snapshot),
        r.is_clean == (drift_items(*spec, *snapshot).len() == 0),
        r.critical_count == critical_items(*spec, *snapshot).len(),
        r.medium_count == medium_items(*spec, *snapshot).len(),
        r.low_count == low_items(*spec, *snapshot).len(),
{
    let mut critical: Vec<DriftItem> = Vec::new();
    let mut medium: Vec<DriftItem> = Vec::new();
    let mut low: Vec<DriftItem> = Vec::new();
    if spec.expected_version != snapshot.observed_version {
        push_item(
            &mut critical,
            make_value_item(
                "version",
                &spec.expected_version,
                &snapshot.observed_version,
                "deployed version '",
            ),
        );
    }
    assert(item_views(critical@) =~= version_items(*spec, *snapshot));
    if spec.expected_network != snapshot.observed_network {
        push_item(
            &mut critical,
            make_value_item(
                "network",
                &spec.expected_network,
                &snapshot.observed_network,
                "network '",
            ),
        );
    }
    assert(item_views(critical@) =~= version_items(*spec, *snapshot) + network_items(
        *spec,
        *snapshot,
    ));
    assert(item_views(medium@) =~= Seq::<ItemView>::empty());
    push_admin(spec, snapshot, &mut critical, &mut medium);
    assert(item_views(critical@) =~= critical_items(*spec, *snapshot));
    let ghost head = item_views(medium@);
    let ghost exp = spec.expected_config@;
    let ghost obs = snapshot.observed_config@;
    let n: usize = spec.expected_config.len();
    let mut i: usize = 0;
    assert(item_views(medium@) =~= head + expected_items(exp.take(0), obs));
    while i < n
        invariant
            n == exp.len(),
            exp == spec.expected_config@,
            obs == snapshot.observed_config@,
            0 <= i <= n,
            item_views(medium@) == head + expected_items(exp.take(i as int), obs),
        decreases n - i,
    {
        proof {
            assert(exp.take(i + 1).drop_last() =~= exp.take(i as int));
        }
        if let Some(item) = check_expected(&spec.expected_config[i], &snapshot.observed_config) {
            push_item(&mut medium, item);
        }
        assert(item_views(medium@) =~= head + expected_items(exp.take(i + 1), obs));
        i = i + 1;
    }
    assert(exp.take(n as int) =~= exp);
    assert(item_views(medium@) =~= medium_items(*spec, *snapshot));
    let m: usize = snapshot.observed_config.len();
    let mut k: usize = 0;
    assert(item_views(low@) =~= observed_items(obs.take(0), exp));
    while k < m
        invariant
            m == obs.len(),
            exp == spec.expected_config@,
            obs == snapshot.observed_config@,
            0 <= k <= m,
            item_views(low@) == observed_items(obs.take(k as int), exp),
        decreases m - k,
    {
        proof {
            assert(obs.take(k + 1).drop_last() =~= obs.take(k as int));
        }
        if let Some(item) = check_observed(&snapshot.observed_config[k], &spec.expected_config) {
            push_item(&mut low, item);
        }
        k = k + 1;
    }
    assert(obs.take(m as int) =~= obs);
    assert(item_views(critical@).len() == critical@.len());
    assert(item_views(medium@).len() == medium@.len());
    assert(item_views(low@).len() == low@.len());
    let critical_count: usize = critical.len();
    let medium_count: usize = medium.len();
    let low_count: usize = low.len();
    let is_clean = critical_count == 0 && medium_count == 0 && low_count == 0;
    let mut items: Vec<DriftItem> = critical;
    move_items(&mut items, &mut medium);
    move_items(&mut items, &mut low);
    assert(item_views(items@) =~= drift_items(*spec, *snapshot));
    DriftReport {
        environment: spec.environment.clone(),
        snapshot_captured_at: snapshot.captured_at,
        items,
        is_clean,
        critical_count,
        medium_count,
        low_count,
    }
}

/// What is logged when differences were found.
pub open spec fn drift_record(spec: DeploymentSpec, snap: DeploymentSnapshot, timestamp: u64) -> RecordView {
    RecordView {
        level: LogLevel::Warn,
        event: DEPLOYMENT_DRIFT_DETECTED@,
        timestamp,
        fields: seq![
            ("environment"@, FieldView::Str(spec.environment@)),
            ("item_count"@, FieldView::U64(drift_items(spec, snap).len() as u64)),
            ("critical_count"@, FieldView::U64(critical_items(spec, snap).len() as u64)),
        ],
    }
}

/// [`detect_drift`], with one warning logged where differences were found.
pub fn detect_drift_logged(
    spec: &DeploymentSpec,
    snapshot: &DeploymentSnapshot,
    logger: &mut StructuredLogger,
    timestamp: u64,
) -> (r: DriftReport)
    ensures
        r.environment@ == spec.environment@,
        r.snapshot_captured_at == snapshot.captured_at,
        item_views(r.items@) == drift_items(*spec, *snapshot),
        r.is_clean == (drift_items(*spec, *snapshot).len() == 0),
        r.critical_count == critical_items(*spec, *snapshot).len(),
        r.medium_count == medium_items(*spec, *snapshot).len(),
        r.low_count == low_items(*spec, *snapshot).len(),
        final(logger)@ == (if r.is_clean {
            old(logger)@
        } else {
            old(logger)@.push(drift_record(*spec, *snapshot, timestamp))
        }),
{
    let report: DriftReport = detect_drift(spec, snapshot);
    assert(item_views(report.items@).len() == report.items@.len());
    if !report.is_clean {
        let mut fields: Vec<(String, FieldValue)> = Vec::new();
        fields.push(("environment".to_owned(), FieldValue::Str(spec.environment.clone())));
        fields.push(("item_count".to_owned(), FieldValue::U64(report.items.len() as u64)));
        fields.push(("critical_count".to_owned(), FieldValue::U64(report.critical_count as u64)));
        assert(field_views(fields@) =~= drift_record(*spec, *snapshot, timestamp).fields);
        logger.log(LogLevel::Warn, DEPLOYMENT_DRIFT_DETECTED, timestamp, fields);
    }
    report
}

/// A deployment that matches its specification in every respect shows no
/// difference.
pub proof fn equal_deployments_are_clean(spec: DeploymentSpec, snap: DeploymentSnapshot)
    requires
        spec.expected_version@ == snap.observed_version@,
        spec.expected_network@ == snap.observed_network@,
        match (spec.expected_admin, snap.observed_admin) {
            (Some(e), Some(o)) => same_admin(e@, o@),
            (None, None) => true,
            _ => false,
        },
        forall|i: int|
            0 <= i < spec.expected_config@.len() ==> entry_at(
                snap.observed_config@,
                (#[trigger] spec.expected_config@[i]).key@,
            ) == Some(spec.expected_config@[i].value@),
        forall|i: int|
            0 <= i < snap.observed_config@.len() ==> entry_at(
                spec.expected_config@,
                (#[trigger] snap.observed_config@[i]).key@,
            ) is Some,
    ensures
        drift_items(spec, snap).len() == 0,
{
    no_expected_items(spec.expected_config@, snap.observed_config@);
    no_observed_items(snap.observed_config@, spec.expected_config@);
}

proof fn no_expected_items(expected: Seq<ConfigEntry>, observed: Seq<ConfigEntry>)
    requires
        forall|i: int|
            0 <= i < expected.len() ==> entry_at(observed, (#[trigger] expected[i]).key@) == Some(
                expected[i].value@,
            ),
    ensures
        expected_items(expected, observed).len() == 0,
    decreases expected.len(),
{
    if expected.len() > 0 {
        assert(expected[expected.len() - 1] == expected.last());
        no_expected_items(expected.drop_last(), observed);
    }
}

proof fn no_observed_items(observed: Seq<ConfigEntry>, expected: Seq<ConfigEntry>)
    requires
        forall|i: int|
            0 <= i < observed.len() ==> entry_at(expected, (#[trigger] observed[i]).key@) is Some,
    ensures
        observed_items(observed, expected).len() == 0,
    decreases observed.len(),
{
    if observed.len() > 0 {
        assert(observed[observed.len() - 1] == observed.last());
        no_observed_items(observed.drop_last(), expected);
    }
}

} // verus!
