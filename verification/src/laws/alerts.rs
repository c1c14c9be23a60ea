//! Laws of alerts, API versions and deployments.
use crate::alert_routing::{
    alert_rule, alert_rules, any_applies, blank, configured_alerts, distinct,
    distinct_keeps_each_once, matched_routes, routes_of, severity_of, text_option, AlertSeverity,
    RouteView, RuleView,
};
use crate::api_versioning::{
    lists, missing_names, starts_with, version_of_path, ApiVersion, FieldDescriptor,
};
use crate::config::{AlertConfig, MonitoringConfig};
use crate::deployment_drift::{
    admin_items, critical_items, drift_items, entry_at, expected_item, expected_items, low_items,
    medium_items, network_items, observed_item, observed_items, same_admin, version_items,
    ConfigEntry, DeploymentSnapshot, DeploymentSpec, DriftSeverity, ItemView,
};
use crate::text::{is_white_space, lowered, trim_back, trim_front, trimmed, uppered};
use vstd::prelude::*;

verus! {

/// A label names a severity by its word, in any case.
pub proof fn labels_name_severities(s: Seq<char>)
    ensures
        severity_of(s) == Some(AlertSeverity::Info) <==> lowered(s) == "info"@,
        severity_of(s) == Some(AlertSeverity::Warning) <==> lowered(s) == "warning"@,
        severity_of(s) == Some(AlertSeverity::Error) <==> lowered(s) == "error"@,
        severity_of(s) == Some(AlertSeverity::Critical) <==> lowered(s) == "critical"@,
        severity_of(s) is None <==> lowered(s) != "info"@ && lowered(s) != "warning"@ && lowered(s)
            != "error"@ && lowered(s) != "critical"@,
{
    reveal_strlit("info");
    reveal_strlit("warning");
    reveal_strlit("error");
    reveal_strlit("critical");
    assert("info"@[0] != "error"@[0] && "info"@[0] != "warning"@[0] && "info"@[0]
        != "critical"@[0]);
    assert("warning"@[0] != "error"@[0] && "warning"@[0] != "critical"@[0] && "error"@[0]
        != "critical"@[0]);
}

/// A rule applies exactly to the alerts of its severity, and of its scope where it
/// names one.
pub proof fn rules_apply_to_their_alerts(
    rule: RuleView,
    severity: AlertSeverity,
    scope: Option<Seq<char>>,
)
    ensures
        rule.scope is None ==> (rule.applies(severity, scope) <==> rule.severity == severity),
        rule.scope is Some ==> (rule.applies(severity, scope) <==> rule.severity == severity && scope
            == rule.scope),
        text_option(None) is None,
{
}

/// An alert goes to a destination exactly where a rule that applies names it, or
/// where none applies and it is a default one. No destination is named twice.
pub proof fn alerts_reach_their_destinations(
    rules: Seq<RuleView>,
    defaults: Seq<RouteView>,
    severity: AlertSeverity,
    scope: Option<Seq<char>>,
    route: RouteView,
)
    ensures
        ({
            let all = routes_of(rules, defaults, severity, scope);
            let named = exists|i: int|
                0 <= i < rules.len() && (#[trigger] rules[i]).applies(severity, scope)
                    && rules[i].routes.contains(route);
            let covered = exists|i: int|
                0 <= i < rules.len() && (#[trigger] rules[i]).applies(severity, scope);
            &&& all.contains(route) <==> named || (!covered && defaults.contains(route))
            &&& all.no_duplicates()
        }),
{
    matched_are_named(rules, severity, scope, route);
    distinct_keeps_each_once(matched_routes(rules, severity, scope));
    distinct_keeps_each_once(defaults);
}

proof fn matched_are_named(
    rules: Seq<RuleView>,
    severity: AlertSeverity,
    scope: Option<Seq<char>>,
    route: RouteView,
)
    ensures
        matched_routes(rules, severity, scope).contains(route) <==> exists|i: int|
            0 <= i < rules.len() && (#[trigger] rules[i]).applies(severity, scope)
                && rules[i].routes.contains(route),
    decreases rules.len(),
{
    if rules.len() > 0 {
        let fore = rules.drop_last();
        let last = rules.last();
        matched_are_named(fore, severity, scope, route);
        let rest = matched_routes(fore, severity, scope);
        let all = matched_routes(rules, severity, scope);
        if all.contains(route) {
            let k = choose|k: int| 0 <= k < all.len() && all[k] == route;
            if k < rest.len() {
                assert(rest[k] == route);
                let i = choose|i: int|
                    0 <= i < fore.len() && (#[trigger] fore[i]).applies(severity, scope)
                        && fore[i].routes.contains(route);
                assert(rules[i] == fore[i]);
            } else {
                assert(last.routes[k - rest.len()] == route);
                assert(rules[rules.len() - 1] == last);
            }
        }
        if exists|i: int|
            0 <= i < rules.len() && (#[trigger] rules[i]).applies(severity, scope)
                && rules[i].routes.contains(route) {
            let i = choose|i: int|
                0 <= i < rules.len() && (#[trigger] rules[i]).applies(severity, scope)
                    && rules[i].routes.contains(route);
            if i < fore.len() {
                assert(fore[i] == rules[i]);
                let k = choose|k: int| 0 <= k < rest.len() && rest[k] == route;
                assert(all[k] == route);
            } else {
                let k = choose|k: int| 0 <= k < last.routes.len() && last.routes[k] == route;
                assert(all[rest.len() + k] == route);
            }
        }
    }
}

/// Destinations come in the order of the rules: what the first rules name comes
/// first, whatever rules follow.
pub proof fn destinations_keep_their_order(first: Seq<RouteView>, later: Seq<RouteView>)
    ensures
        distinct(first).len() <= distinct(first + later).len(),
        distinct(first + later).take(distinct(first).len() as int) == distinct(first),
        first.no_duplicates() ==> distinct(first) == first,
    decreases first.len() + later.len(),
{
    if later.len() > 0 {
        let all = first + later;
        assert(all.drop_last() =~= first + later.drop_last());
        destinations_keep_their_order(first, later.drop_last());
        assert(distinct(all).take(distinct(first).len() as int) =~= distinct(first));
    } else {
        assert(first + later =~= first);
        assert(distinct(first).take(distinct(first).len() as int) =~= distinct(first));
    }
    if first.no_duplicates() && first.len() > 0 {
        let rest = first.drop_last();
        destinations_keep_their_order(rest, Seq::empty());
        assert(rest.no_duplicates());
        if rest.contains(first.last()) {
            let i = choose|i: int| 0 <= i < rest.len() && rest[i] == first.last();
            assert(first[i] == first[first.len() - 1]);
        }
        assert(distinct(first) =~= first);
    }
}

/// A configured alert becomes one rule: its condition is the scope, unless it is
/// empty, and each recipient is a webhook, in order.
pub proof fn configured_alerts_become_rules(a: AlertConfig, i: int)
    ensures
        ({
            let rule = alert_rule(a);
            &&& severity_of(a.severity@) is Some ==> rule.severity == severity_of(a.severity@)->0
            &&& a.condition@.len() == 0 ==> rule.scope is None
            &&& a.condition@.len() > 0 ==> rule.scope == Some(a.condition@)
            &&& rule.routes.len() == a.recipients@.len()
            &&& 0 <= i < a.recipients@.len() ==> rule.routes[i].0 == "webhook"@ && rule.routes[i].1
                == a.recipients@[i]@
        }),
{
}

/// Rules come from the alerts of the monitoring section, one each and in order.
pub proof fn rules_follow_the_configuration(alerts: Seq<AlertConfig>, m: MonitoringConfig, i: int)
    ensures
        alert_rules(alerts).len() == alerts.len(),
        0 <= i < alerts.len() ==> alert_rules(alerts)[i] == alert_rule(alerts[i]),
        configured_alerts(None).len() == 0,
        m.alerts is None ==> configured_alerts(Some(&m)).len() == 0,
        m.alerts is Some ==> configured_alerts(Some(&m)) == m.alerts->0@,
{
}

/// A text is blank exactly where every character is white space.
pub proof fn blank_texts_are_white(s: Seq<char>)
    ensures
        blank(s) <==> forall|i: int| 0 <= i < s.len() ==> is_white_space(#[trigger] s[i]),
        is_white_space(' '),
        is_white_space('\n'),
        is_white_space('\t'),
        !is_white_space('a'),
        !is_white_space('0'),
{
    front_of_white(s);
    back_of_white(trim_front(s));
    let f = trim_front(s);
    if f.len() > 0 {
        front_starts_bare(s);
    }
}

proof fn front_starts_bare(s: Seq<char>)
    requires
        trim_front(s).len() > 0,
    ensures
        !is_white_space(trim_front(s)[0]),
    decreases s.len(),
{
    if s.len() > 0 && is_white_space(s[0]) {
        front_starts_bare(s.skip(1));
    }
}

proof fn front_of_white(s: Seq<char>)
    ensures
        trim_front(s).len() == 0 <==> forall|i: int|
            0 <= i < s.len() ==> is_white_space(#[trigger] s[i]),
    decreases s.len(),
{
    if s.len() > 0 && is_white_space(s[0]) {
        let t = s.skip(1);
        front_of_white(t);
        if forall|i: int| 0 <= i < t.len() ==> is_white_space(#[trigger] t[i]) {
            assert forall|i: int| 0 <= i < s.len() implies is_white_space(#[trigger] s[i]) by {
                if i > 0 {
                    assert(t[i - 1] == s[i]);
                }
            }
        } else {
            let i = choose|i: int| 0 <= i < t.len() && !is_white_space(#[trigger] t[i]);
            assert(s[i + 1] == t[i]);
        }
    }
}

proof fn back_of_white(s: Seq<char>)
    ensures
        trim_back(s).len() == 0 ==> forall|i: int|
            0 <= i < s.len() ==> is_white_space(#[trigger] s[i]),
    decreases s.len(),
{
    if s.len() > 0 && is_white_space(s.last()) {
        let t = s.drop_last();
        back_of_white(t);
        if trim_back(s).len() == 0 {
            assert forall|i: int| 0 <= i < s.len() implies is_white_space(#[trigger] s[i]) by {
                if i < t.len() {
                    assert(t[i] == s[i]);
                }
            }
        }
    }
}

/// A path asks for a version exactly where it is the name of the version behind a
/// slash, or starts with it and another slash.
pub proof fn paths_ask_for_versions(rest: Seq<char>, path: Seq<char>)
    ensures
        version_of_path("/v1/"@ + rest) == Some(ApiVersion::V1),
        version_of_path("/v2/"@ + rest) == Some(ApiVersion::V2),
        version_of_path("/v1"@) == Some(ApiVersion::V1),
        version_of_path("/v2"@) == Some(ApiVersion::V2),
        version_of_path(path) is Some ==> path.len() >= 3 && path[0] == '/' && path[1] == 'v' && (
        path.len() > 3 ==> path[3] == '/'),
        version_of_path(path) == Some(ApiVersion::V1) ==> path[2] == '1',
        version_of_path(path) == Some(ApiVersion::V2) ==> path[2] == '2',
{
    reveal_strlit("/v1/");
    reveal_strlit("/v2/");
    reveal_strlit("/v1");
    reveal_strlit("/v2");
    let one = "/v1/"@ + rest;
    let two = "/v2/"@ + rest;
    assert(one.take(4) =~= "/v1/"@);
    assert(two.take(4) =~= "/v2/"@);
    assert(two[2] == '2');
    assert("/v1/"@[2] == '1');
    assert("/v1"@[2] == '1');
    if starts_with(two, "/v1/"@) {
        assert(two.take(4)[2] == '1');
    }
    if starts_with(path, "/v1/"@) {
        assert(path.take(4)[0] == '/' && path.take(4)[1] == 'v' && path.take(4)[2] == '1'
            && path.take(4)[3] == '/');
    }
    if starts_with(path, "/v2/"@) {
        assert(path.take(4)[0] == '/' && path.take(4)[1] == 'v' && path.take(4)[2] == '2'
            && path.take(4)[3] == '/');
    }
}

/// The removed fields are the names of the earlier schema that the later one does
/// not list, in their order.
pub proof fn removals_keep_their_order(
    base: Seq<FieldDescriptor>,
    current: Seq<FieldDescriptor>,
)
    ensures
        missing_names(base, current) == base.map_values(|f: FieldDescriptor| f.name@).filter(
            |name: Seq<char>| !lists(current, name),
        ),
    decreases base.len(),
{
    let names = base.map_values(|f: FieldDescriptor| f.name@);
    let gone = |name: Seq<char>| !lists(current, name);
    reveal(Seq::filter);
    if base.len() > 0 {
        removals_keep_their_order(base.drop_last(), current);
        assert(names.drop_last() =~= base.drop_last().map_values(|f: FieldDescriptor| f.name@));
        assert(names.last() == base.last().name@);
    }
}

/// Admins are the same where they differ by case or by white space around them
/// only.
pub proof fn admins_compare_by_letters(a: Seq<char>, b: Seq<char>)
    ensures
        same_admin(a, a),
        same_admin(a, b) == same_admin(b, a),
        trimmed(a) == trimmed(b) ==> same_admin(a, b),
        uppered(trimmed(a)) != uppered(trimmed(b)) ==> !same_admin(a, b),
{
}

/// A difference in the version or the network is critical and names both sides;
/// there is none where they are the same.
pub proof fn core_differences_are_critical(spec: DeploymentSpec, snap: DeploymentSnapshot)
    ensures
        spec.expected_version@ == snap.observed_version@ <==> version_items(spec, snap).len() == 0,
        spec.expected_network@ == snap.observed_network@ <==> network_items(spec, snap).len() == 0,
        spec.expected_version@ != snap.observed_version@ ==> is_difference(
            version_items(spec, snap)[0],
            "version"@,
            DriftSeverity::Critical,
            Some(spec.expected_version@),
            Some(snap.observed_version@),
        ),
        spec.expected_network@ != snap.observed_network@ ==> is_difference(
            network_items(spec, snap)[0],
            "network"@,
            DriftSeverity::Critical,
            Some(spec.expected_network@),
            Some(snap.observed_network@),
        ),
{
}

/// What a difference says of a field.
pub open spec fn is_difference(
    item: ItemView,
    field: Seq<char>,
    severity: DriftSeverity,
    expected: Option<Seq<char>>,
    observed: Option<Seq<char>>,
) -> bool {
    &&& item.field == field
    &&& item.severity == severity
    &&& item.expected == expected
    &&& item.observed == observed
}

/// Another admin than expected, or none, is critical; an admin where none is
/// expected is of medium severity.
pub proof fn admin_differences_are_found(spec: DeploymentSpec, snap: DeploymentSnapshot)
    ensures
        ({
            let items = admin_items(spec, snap);
            let (e, o) = (spec.expected_admin, snap.observed_admin);
            &&& e is None && o is None ==> items.len() == 0
            &&& e is Some && o is Some ==> (items.len() == 0 <==> same_admin(e->0@, o->0@))
            &&& e is Some && o is Some && !same_admin(e->0@, o->0@) ==> is_difference(
                items[0],
                "admin"@,
                DriftSeverity::Critical,
                Some(e->0@),
                Some(o->0@),
            )
            &&& e is Some && o is None ==> items.len() == 1 && is_difference(
                items[0],
                "admin"@,
                DriftSeverity::Critical,
                Some(e->0@),
                None,
            )
            &&& e is None && o is Some ==> items.len() == 1 && is_difference(
                items[0],
                "admin"@,
                DriftSeverity::Medium,
                None,
                Some(o->0@),
            )
        }),
{
}

/// An expected entry that is missing or has another value is of medium severity,
/// an entry that nobody expects is of low severity, and neither is reported
/// otherwise.
pub proof fn entry_differences_are_found(
    e: ConfigEntry,
    o: ConfigEntry,
    expected: Seq<ConfigEntry>,
    observed: Seq<ConfigEntry>,
)
    ensures
        expected_item(e, observed) is None <==> entry_at(observed, e.key@) == Some(e.value@),
        expected_item(e, observed) is Some ==> is_difference(
            expected_item(e, observed)->0,
            "config."@ + e.key@,
            DriftSeverity::Medium,
            Some(e.value@),
            entry_at(observed, e.key@),
        ),
        observed_item(o, expected) is None <==> entry_at(expected, o.key@) is Some,
        observed_item(o, expected) is Some ==> is_difference(
            observed_item(o, expected)->0,
            "config."@ + o.key@,
            DriftSeverity::Low,
            None,
            Some(o.value@),
        ),
{
}

/// The value of a key is that of the first entry with it.
pub proof fn entries_are_found(entries: Seq<ConfigEntry>, key: Seq<char>)
    ensures
        entry_at(entries, key) is None <==> forall|i: int|
            0 <= i < entries.len() ==> (#[trigger] entries[i]).key@ != key,
        entry_at(entries, key) is Some ==> exists|i: int|
            0 <= i < entries.len() && (#[trigger] entries[i]).key@ == key && entries[i].value@
                == entry_at(entries, key)->0 && forall|j: int|
                0 <= j < i ==> (#[trigger] entries[j]).key@ != key,
    decreases entries.len(),
{
    if entries.len() > 0 {
        if entries[0].key@ != key {
            let rest = entries.skip(1);
            entries_are_found(rest, key);
            if entry_at(rest, key) is Some {
                let i = choose|i: int|
                    0 <= i < rest.len() && (#[trigger] rest[i]).key@ == key && rest[i].value@
                        == entry_at(rest, key)->0 && forall|j: int|
                        0 <= j < i ==> (#[trigger] rest[j]).key@ != key;
                assert(entries[i + 1] == rest[i]);
                assert forall|j: int| 0 <= j < i + 1 implies (#[trigger] entries[j]).key@
                    != key by {
                    if j > 0 {
                        assert(rest[j - 1] == entries[j]);
                    }
                }
            } else {
                assert forall|j: int| 0 <= j < entries.len() implies (#[trigger] entries[j]).key@
                    != key by {
                    if j > 0 {
                        assert(rest[j - 1] == entries[j]);
                    }
                }
            }
        }
    }
}

/// A deployment is clean exactly where version, network and admin are as expected
/// and the configurations agree; everything that differs is reported.
pub proof fn clean_deployments_agree(spec: DeploymentSpec, snap: DeploymentSnapshot)
    ensures
        drift_items(spec, snap).len() == 0 <==> {
            &&& spec.expected_version@ == snap.observed_version@
            &&& spec.expected_network@ == snap.observed_network@
            &&& match (spec.expected_admin, snap.observed_admin) {
                (Some(e), Some(o)) => same_admin(e@, o@),
                (None, None) => true,
                _ => false,
            }
            &&& forall|i: int|
                0 <= i < spec.expected_config@.len() ==> entry_at(
                    snap.observed_config@,
                    (#[trigger] spec.expected_config@[i]).key@,
                ) == Some(spec.expected_config@[i].value@)
            &&& forall|i: int|
                0 <= i < snap.observed_config@.len() ==> entry_at(
                    spec.expected_config@,
                    (#[trigger] snap.observed_config@[i]).key@,
                ) is Some
        },
        drift_items(spec, snap).len() == critical_items(spec, snap).len() + medium_items(
            spec,
            snap,
        ).len() + low_items(spec, snap).len(),
{
    expected_differences_show(spec.expected_config@, snap.observed_config@);
    observed_differences_show(snap.observed_config@, spec.expected_config@);
}

proof fn expected_differences_show(expected: Seq<ConfigEntry>, observed: Seq<ConfigEntry>)
    ensures
        expected_items(expected, observed).len() == 0 <==> forall|i: int|
            0 <= i < expected.len() ==> entry_at(observed, (#[trigger] expected[i]).key@) == Some(
                expected[i].value@,
            ),
    decreases expected.len(),
{
    if expected.len() > 0 {
        let fore = expected.drop_last();
        expected_differences_show(fore, observed);
        assert(expected[expected.len() - 1] == expected.last());
        if expected_items(expected, observed).len() == 0 {
            assert forall|i: int| 0 <= i < expected.len() implies entry_at(
                observed,
                (#[trigger] expected[i]).key@,
            ) == Some(expected[i].value@) by {
                if i < fore.len() {
                    assert(fore[i] == expected[i]);
                }
            }
        } else {
            if expected_items(fore, observed).len() > 0 {
                let i = choose|i: int|
                    0 <= i < fore.len() && entry_at(observed, (#[trigger] fore[i]).key@) != Some(
                        fore[i].value@,
                    );
                assert(expected[i] == fore[i]);
            }
        }
    }
}

proof fn observed_differences_show(observed: Seq<ConfigEntry>, expected: Seq<ConfigEntry>)
    ensures
        observed_items(observed, expected).len() == 0 <==> forall|i: int|
            0 <= i < observed.len() ==> entry_at(expected, (#[trigger] observed[i]).key@) is Some,
    decreases observed.len(),
{
    if observed.len() > 0 {
        let fore = observed.drop_last();
        observed_differences_show(fore, expected);
        assert(observed[observed.len() - 1] == observed.last());
        if observed_items(observed, expected).len() == 0 {
            assert forall|i: int| 0 <= i < observed.len() implies entry_at(
                expected,
                (#[trigger] observed[i]).key@,
            ) is Some by {
                if i < fore.len() {
                    assert(fore[i] == observed[i]);
                }
            }
        } else {
            if observed_items(fore, expected).len() > 0 {
                let i = choose|i: int|
                    0 <= i < fore.len() && entry_at(expected, (#[trigger] fore[i]).key@) is None;
                assert(observed[i] == fore[i]);
            }
        }
    }
}

} // verus!
