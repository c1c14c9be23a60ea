//! Which destinations an alert goes to.
//!
//! Every rule that matches an alert contributes its routes; where none does,
//! the default routes apply. A destination is named once, where it first
//! occurs.
use crate::config::{AlertConfig, MonitoringConfig};
use crate::errors::AnchorKitError;
use crate::text::{debug_format, debug_text, lowered, same_text, trimmed};
use vstd::prelude::*;
use vstd::string::*;

verus! {

/// How urgent an alert is.
#[derive(Clone, Copy, Debug, PartialEq, Eq, PartialOrd, Ord, Structural)]
pub enum AlertSeverity {
    Info,
    Warning,
    Error,
    Critical,
}

/// The severity that a label names, in any case.
pub open spec fn severity_of(s: Seq<char>) -> Option<AlertSeverity> {
    let l = lowered(s);
    if l == "info"@ {
        Some(AlertSeverity::Info)
    } else if l == "warning"@ {
        Some(AlertSeverity::Warning)
    } else if l == "error"@ {
        Some(AlertSeverity::Error)
    } else if l == "critical"@ {
        Some(AlertSeverity::Critical)
    } else {
        None
    }
}

impl AlertSeverity {
    /// The label of the severity.
    pub open spec fn text(self) -> Seq<char> {
        match self {
            AlertSeverity::Info => "info"@,
            AlertSeverity::Warning => "warning"@,
            AlertSeverity::Error => "error"@,
            AlertSeverity::Critical => "critical"@,
        }
    }

    /// The label used in alert payloads.
    pub fn label(&self) -> (r: &'static str)
        ensures
            r@ == self.text(),
    {
        match self {
            AlertSeverity::Info => "info",
            AlertSeverity::Warning => "warning",
            AlertSeverity::Error => "error",
            AlertSeverity::Critical => "critical",
        }
    }

    /// Reads a label, in any case.
    pub fn from_str(s: &str) -> (r: Option<Self>)
        ensures
            r == severity_of(s@),
    {
        let l: String = s.to_ascii_lowercase();
        if same_text(l.as_str(), "info") {
            Some(AlertSeverity::Info)
        } else if same_text(l.as_str(), "warning") {
            Some(AlertSeverity::Warning)
        } else if same_text(l.as_str(), "error") {
            Some(AlertSeverity::Error)
        } else if same_text(l.as_str(), "critical") {
            Some(AlertSeverity::Critical)
        } else {
            None
        }
    }
}

/// Reading the label of a severity gives back the severity.
pub proof fn label_reads_back(s: AlertSeverity)
    ensures
        severity_of(s.text()) == Some(s),
{
    reveal_strlit("info");
    reveal_strlit("warning");
    reveal_strlit("error");
    reveal_strlit("critical");
    assert(lowered("info"@) =~= "info"@);
    assert(lowered("warning"@) =~= "warning"@);
    assert(lowered("error"@) =~= "error"@);
    assert(lowered("critical"@) =~= "critical"@);
    assert("info"@.len() == 4 && "warning"@.len() == 7 && "error"@.len() == 5 && "critical"@.len()
        == 8);
}

impl Default for AlertSeverity {
    fn default() -> (r: Self)
        ensures
            r == AlertSeverity::Warning,
    {
        AlertSeverity::Warning
    }
}

/// One destination of an alert.
#[derive(Debug, PartialEq, Eq)]
pub struct AlertRoute {
    pub channel: String,
    pub destination: String,
}

/// Channel and destination.
pub type RouteView = (Seq<char>, Seq<char>);

impl View for AlertRoute {
    type V = RouteView;

    open spec fn view(&self) -> RouteView {
        (self.channel@, self.destination@)
    }
}

impl Clone for AlertRoute {
    fn clone(&self) -> (r: Self)
        ensures
            r == *self,
    {
        AlertRoute { channel: self.channel.clone(), destination: self.destination.clone() }
    }
}

/// Whether nothing is left of `s` once white space is trimmed.
pub open spec fn blank(s: Seq<char>) -> bool {
    trimmed(s).len() == 0
}

impl AlertRoute {
    /// A webhook route.
    pub fn webhook(url: &str) -> (r: Self)
        ensures
            r@ == ("webhook"@, url@),
    {
        AlertRoute { channel: "webhook".to_owned(), destination: url.to_owned() }
    }

    /// An email route.
    pub fn email(address: &str) -> (r: Self)
        ensures
            r@ == ("email"@, address@),
    {
        AlertRoute { channel: "email".to_owned(), destination: address.to_owned() }
    }

    /// A route on any channel.
    pub fn new(channel: &str, destination: &str) -> (r: Self)
        ensures
            r@ == (channel@, destination@),
    {
        AlertRoute { channel: channel.to_owned(), destination: destination.to_owned() }
    }

    /// A route whose destination must not be blank.
    pub fn try_new(channel: &str, destination: &str) -> (r: Result<Self, AnchorKitError>)
        ensures
            match r {
                Ok(route) => !blank(destination@) && route@ == (channel@, destination@),
                Err(e) => blank(destination@) && e.is_validation("destination"@),
            },
    {
        if destination.trim().is_empty() {
            return Err(AnchorKitError::validation_error("destination"));
        }
        Ok(AlertRoute::new(channel, destination))
    }
}

/// Routes for the alerts of one severity, and of one scope where it names one.
#[derive(Debug, PartialEq)]
pub struct AlertRule {
    pub severity: AlertSeverity,
    pub scope: Option<String>,
    pub routes: Vec<AlertRoute>,
}

/// What a rule says.
pub struct RuleView {
    pub severity: AlertSeverity,
    pub scope: Option<Seq<char>>,
    pub routes: Seq<RouteView>,
}

/// The characters of an optional text.
pub open spec fn text_option(s: Option<String>) -> Option<Seq<char>> {
    match s {
        Some(t) => Some(t@),
        None => None,
    }
}

/// The characters of an optional text.
pub open spec fn str_option(s: Option<&str>) -> Option<Seq<char>> {
    match s {
        Some(t) => Some(t@),
        None => None,
    }
}

/// What a list of routes says.
pub open spec fn route_views(routes: Seq<AlertRoute>) -> Seq<RouteView> {
    routes.map_values(|r: AlertRoute| r@)
}

impl View for AlertRule {
    type V = RuleView;

    open spec fn view(&self) -> RuleView {
        RuleView {
            severity: self.severity,
            scope: text_option(self.scope),
            routes: route_views(self.routes@),
        }
    }
}

impl RuleView {
    /// Whether the rule applies: the severity is its own, and the scope is its
    /// own where it has one.
    pub open spec fn applies(self, severity: AlertSeverity, scope: Option<Seq<char>>) -> bool {
        self.severity == severity && (self.scope is None || self.scope == scope)
    }
}

impl AlertRule {
    /// Whether the rule applies to an alert.
    pub fn matches(&self, severity: AlertSeverity, scope: Option<&str>) -> (r: bool)
        ensures
            r == self@.applies(severity, str_option(scope)),
    {
        if self.severity != severity {
            return false;
        }
        match (&self.scope, scope) {
            (None, _) => true,
            (Some(own), Some(s)) => same_text(own.as_str(), s),
            (Some(_), None) => false,
        }
    }
}

/// The rules and the routes for alerts that no rule covers.
#[derive(Debug)]
pub struct AlertRouterConfig {
    pub rules: Vec<AlertRule>,
    pub default_routes: Vec<AlertRoute>,
}

impl Default for AlertRouterConfig {
    fn default() -> (c: Self)
        ensures
            c.rules@.len() == 0,
            c.default_routes@.len() == 0,
    {
        AlertRouterConfig { rules: Vec::new(), default_routes: Vec::new() }
    }
}

/// What a list of rules says.
pub open spec fn rule_views(rules: Seq<AlertRule>) -> Seq<RuleView> {
    rules.map_values(|r: AlertRule| r@)
}

/// The routes of every rule that applies, in rule order.
pub open spec fn matched_routes(
    rules: Seq<RuleView>,
    severity: AlertSeverity,
    scope: Option<Seq<char>>,
) -> Seq<RouteView>
    decreases rules.len(),
{
    if rules.len() == 0 {
        Seq::empty()
    } else {
        let rest = matched_routes(rules.drop_last(), severity, scope);
        if rules.last().applies(severity, scope) {
            rest + rules.last().routes
        } else {
            rest
        }
    }
}

/// The first occurrence of each route, in order.
pub open spec fn distinct(routes: Seq<RouteView>) -> Seq<RouteView>
    decreases routes.len(),
{
    if routes.len() == 0 {
        Seq::empty()
    } else {
        let rest = distinct(routes.drop_last());
        if rest.contains(routes.last()) {
            rest
        } else {
            rest.push(routes.last())
        }
    }
}

/// Whether a rule applies to an alert.
pub open spec fn any_applies(
    rules: Seq<RuleView>,
    severity: AlertSeverity,
    scope: Option<Seq<char>>,
) -> bool {
    exists|i: int| 0 <= i < rules.len() && (#[trigger] rules[i]).applies(severity, scope)
}

/// The routes of an alert: those of the rules that apply, or the default ones
/// where no rule applies, each once.
pub open spec fn routes_of(
    rules: Seq<RuleView>,
    default_routes: Seq<RouteView>,
    severity: AlertSeverity,
    scope: Option<Seq<char>>,
) -> Seq<RouteView> {
    distinct(
        if any_applies(rules, severity, scope) {
            matched_routes(rules, severity, scope)
        } else {
            default_routes
        },
    )
}

/// A list of distinct routes names each route of the original once and no
/// other.
pub proof fn distinct_keeps_each_once(routes: Seq<RouteView>)
    ensures
        distinct(routes).no_duplicates(),
        forall|r: RouteView| distinct(routes).contains(r) <==> routes.contains(r),
    decreases routes.len(),
{
    if routes.len() > 0 {
        let init = routes.drop_last();
        let rest = distinct(init);
        let all = distinct(routes);
        distinct_keeps_each_once(init);
        assert forall|r: RouteView| all.contains(r) <==> routes.contains(r) by {
            if routes.contains(r) {
                let i = choose|i: int| 0 <= i < routes.len() && routes[i] == r;
                if i < init.len() {
                    assert(init[i] == r);
                    assert(init.contains(r));
                    assert(rest.contains(r));
                    let j = choose|j: int| 0 <= j < rest.len() && rest[j] == r;
                    assert(all[j] == r);
                } else if !rest.contains(r) {
                    assert(all[rest.len() as int] == r);
                }
            }
            if all.contains(r) {
                let j = choose|j: int| 0 <= j < all.len() && all[j] == r;
                if j < rest.len() {
                    assert(rest[j] == r);
                    assert(init.contains(r));
                    let i = choose|i: int| 0 <= i < init.len() && init[i] == r;
                    assert(routes[i] == r);
                } else {
                    assert(routes[routes.len() - 1] == r);
                }
            }
        }
        if !rest.contains(routes.last()) {
            assert forall|i: int, j: int| 0 <= i < all.len() && 0 <= j < all.len() && i != j implies all[i]
                != all[j] by {
                if i < rest.len() {
                    assert(rest[i] == all[i]);
                }
                if j < rest.len() {
                    assert(rest[j] == all[j]);
                }
            }
        }
    }
}

/// The rules that apply give a route exactly when one of them has one.
proof fn matched_when_a_rule_has_a_route(
    rules: Seq<RuleView>,
    severity: AlertSeverity,
    scope: Option<Seq<char>>,
)
    ensures
        matched_routes(rules, severity, scope).len() > 0 <==> exists|i: int|
            0 <= i < rules.len() && (#[trigger] rules[i]).applies(severity, scope)
                && rules[i].routes.len() > 0,
    decreases rules.len(),
{
    if rules.len() > 0 {
        let init = rules.drop_last();
        matched_when_a_rule_has_a_route(init, severity, scope);
        if matched_routes(init, severity, scope).len() > 0 {
            let i = choose|i: int|
                0 <= i < init.len() && (#[trigger] init[i]).applies(severity, scope)
                    && init[i].routes.len() > 0;
            assert(rules[i] == init[i]);
        } else if matched_routes(rules, severity, scope).len() > 0 {
            assert(rules[rules.len() - 1].applies(severity, scope));
        }
        if exists|i: int|
            0 <= i < rules.len() && (#[trigger] rules[i]).applies(severity, scope)
                && rules[i].routes.len() > 0 {
            let i = choose|i: int|
                0 <= i < rules.len() && (#[trigger] rules[i]).applies(severity, scope)
                    && rules[i].routes.len() > 0;
            if i < init.len() {
                assert(init[i] == rules[i]);
            }
        }
    }
}

/// An alert is routed somewhere exactly when a rule that applies has a route,
/// or no rule applies and there is a default route.
pub proof fn routed_exactly_when_covered(
    rules: Seq<RuleView>,
    default_routes: Seq<RouteView>,
    severity: AlertSeverity,
    scope: Option<Seq<char>>,
)
    ensures
        routes_of(rules, default_routes, severity, scope).len() > 0 <==> (if any_applies(
            rules,
            severity,
            scope,
        ) {
            exists|i: int|
                0 <= i < rules.len() && (#[trigger] rules[i]).applies(severity, scope)
                    && rules[i].routes.len() > 0
        } else {
            default_routes.len() > 0
        }),
{
    let applies = any_applies(rules, severity, scope);
    let list = if applies {
        matched_routes(rules, severity, scope)
    } else {
        default_routes
    };
    matched_when_a_rule_has_a_route(rules, severity, scope);
    distinct_keeps_each_once(list);
    if list.len() > 0 {
        assert(list.contains(list[0]));
        assert(distinct(list).contains(list[0]));
    }
}

/// Chooses the routes of alerts.
#[derive(Debug)]
pub struct AlertRouter {
    config: AlertRouterConfig,
}

impl View for AlertRouter {
    type V = AlertRouterConfig;

    closed spec fn view(&self) -> AlertRouterConfig {
        self.config
    }
}

fn add_distinct(out: &mut Vec<AlertRoute>, route: &AlertRoute)
    ensures
        route_views(final(out)@) == (if route_views(old(out)@).contains(route@) {
            route_views(old(out)@)
        } else {
            route_views(old(out)@).push(route@)
        }),
{
    let ghost before = route_views(out@);
    let mut i: usize = 0;
    while i < out.len()
        invariant
            out@ == old(out)@,
            before == route_views(out@),
            0 <= i <= out@.len(),
            forall|j: int| 0 <= j < i ==> before[j] != route@,
        decreases out@.len() - i,
    {
        assert(before[i as int] == out@[i as int]@);
        if out[i].channel == route.channel && out[i].destination == route.destination {
            assert(before.contains(route@));
            return;
        }
        i = i + 1;
    }
    out.push(route.clone());
    assert(route_views(out@) =~= before.push(route@));
}

fn distinct_list(routes: &Vec<AlertRoute>) -> (r: Vec<AlertRoute>)
    ensures
        route_views(r@) == distinct(route_views(routes@)),
{
    let ghost all = route_views(routes@);
    let n: usize = routes.len();
    let mut out: Vec<AlertRoute> = Vec::new();
    let mut i: usize = 0;
    assert(route_views(out@) =~= distinct(all.take(0)));
    while i < n
        invariant
            n == routes@.len(),
            all == route_views(routes@),
            0 <= i <= n,
            route_views(out@) == distinct(all.take(i as int)),
        decreases n - i,
    {
        add_distinct(&mut out, &routes[i]);
        proof {
            let next = all.take(i + 1);
            assert(next.drop_last() =~= all.take(i as int));
            assert(next.last() == routes@[i as int]@);
        }
        i = i + 1;
    }
    assert(all.take(n as int) =~= all);
    out
}

fn append_routes(out: &mut Vec<AlertRoute>, routes: &Vec<AlertRoute>)
    ensures
        route_views(final(out)@) == route_views(old(out)@) + route_views(routes@),
{
    let ghost before = route_views(out@);
    let n: usize = routes.len();
    let mut i: usize = 0;
    while i < n
        invariant
            n == routes@.len(),
            0 <= i <= n,
            route_views(out@) == before + route_views(routes@).take(i as int),
        decreases n - i,
    {
        let ghost so_far = route_views(out@);
        out.push(routes[i].clone());
        assert(route_views(out@) =~= so_far.push(routes@[i as int]@));
        assert(route_views(routes@).take(i + 1) =~= route_views(routes@).take(i as int).push(
            routes@[i as int]@,
        ));
        assert(route_views(out@) =~= before + route_views(routes@).take(i + 1));
        i = i + 1;
    }
    assert(route_views(routes@).take(n as int) =~= route_views(routes@));
}

impl AlertRouter {
    /// A router for the given configuration.
    pub fn new(config: AlertRouterConfig) -> (r: Self)
        ensures
            r@ == config,
    {
        AlertRouter { config }
    }

    /// The routes of an alert.
    pub fn route(&self, severity: AlertSeverity, scope: Option<&str>) -> (r: Vec<AlertRoute>)
        ensures
            route_views(r@) == routes_of(
                rule_views(self@.rules@),
                route_views(self@.default_routes@),
                severity,
                str_option(scope),
            ),
    {
        let ghost rules = rule_views(self.config.rules@);
        let n: usize = self.config.rules.len();
        let mut matched: Vec<AlertRoute> = Vec::new();
        let mut applied: bool = false;
        let mut i: usize = 0;
        assert(route_views(matched@) =~= matched_routes(rules.take(0), severity, str_option(scope)));
        while i < n
            invariant
                n == self.config.rules@.len(),
                rules == rule_views(self.config.rules@),
                0 <= i <= n,
                route_views(matched@) == matched_routes(
                    rules.take(i as int),
                    severity,
                    str_option(scope),
                ),
                applied == any_applies(rules.take(i as int), severity, str_option(scope)),
            decreases n - i,
        {
            let rule: &AlertRule = &self.config.rules[i];
            if rule.matches(severity, scope) {
                append_routes(&mut matched, &rule.routes);
                applied = true;
            }
            proof {
                let before = rules.take(i as int);
                let next = rules.take(i + 1);
                assert(next.drop_last() =~= before);
                assert(next.last() == rule@);
                assert(next[i as int] == rule@);
                if any_applies(before, severity, str_option(scope)) {
                    let j = choose|j: int|
                        0 <= j < before.len() && (#[trigger] before[j]).applies(
                            severity,
                            str_option(scope),
                        );
                    assert(next[j] == before[j]);
                }
                if any_applies(next, severity, str_option(scope)) {
                    let j = choose|j: int|
                        0 <= j < next.len() && (#[trigger] next[j]).applies(
                            severity,
                            str_option(scope),
                        );
                    if j < i {
                        assert(before[j] == next[j]);
                    }
                }
            }
            i = i + 1;
        }
        assert(rules.take(n as int) =~= rules);
        if applied {
            distinct_list(&matched)
        } else {
            distinct_list(&self.config.default_routes)
        }
    }

    /// Whether an alert is routed anywhere.
    pub fn has_route(&self, severity: AlertSeverity, scope: Option<&str>) -> (r: bool)
        ensures
            r == (routes_of(
                rule_views(self@.rules@),
                route_views(self@.default_routes@),
                severity,
                str_option(scope),
            ).len() > 0),
    {
        let routes: Vec<AlertRoute> = self.route(severity, scope);
        assert(route_views(routes@).len() == routes@.len());
        routes.len() > 0
    }

    /// The configuration of the router.
    pub fn config(&self) -> (c: &AlertRouterConfig)
        ensures
            *c == self@,
    {
        &self.config
    }
}

/// What is said of a severity that is not known, given its quoted form.
pub open spec fn bad_severity_text(quoted: Seq<char>) -> Seq<char> {
    "monitoring.alerts[].severity: invalid severity "@ + quoted
        + " (expected info|warning|error|critical)"@
}

/// The error for a severity that is not known, given its quoted form.
pub fn bad_severity(quoted: &str) -> (e: AnchorKitError)
    ensures
        e.is_validation(bad_severity_text(quoted@)),
{
    let mut s: String = "monitoring.alerts[].severity: invalid severity ".to_owned();
    s.append(quoted);
    s.append(" (expected info|warning|error|critical)");
    AnchorKitError::validation_error(s.as_str())
}

/// One webhook route per recipient.
pub open spec fn recipient_routes(recipients: Seq<String>) -> Seq<RouteView> {
    recipients.map_values(|r: String| ("webhook"@, r@))
}

/// The rule for one configured alert.
pub open spec fn alert_rule(a: AlertConfig) -> RuleView {
    RuleView {
        severity: severity_of(a.severity@)->0,
        scope: if a.condition@.len() == 0 {
            None
        } else {
            Some(a.condition@)
        },
        routes: recipient_routes(a.recipients@),
    }
}

/// The rules for configured alerts, one each, in order.
pub open spec fn alert_rules(alerts: Seq<AlertConfig>) -> Seq<RuleView> {
    alerts.map_values(|a: AlertConfig| alert_rule(a))
}

/// The configured alerts.
pub open spec fn configured_alerts(m: Option<&MonitoringConfig>) -> Seq<AlertConfig> {
    match m {
        Some(c) => match c.alerts {
            Some(list) => list@,
            None => Seq::empty(),
        },
        None => Seq::empty(),
    }
}

/// Whether the alert at `i` is the first whose severity is not known.
pub open spec fn first_bad(alerts: Seq<AlertConfig>, i: int) -> bool {
    &&& 0 <= i < alerts.len()
    &&& severity_of(alerts[i].severity@) is None
    &&& forall|j: int| 0 <= j < i ==> severity_of((#[trigger] alerts[j]).severity@) is Some
}

fn webhook_routes(recipients: &Vec<String>) -> (r: Vec<AlertRoute>)
    ensures
        route_views(r@) == recipient_routes(recipients@),
{
    let n: usize = recipients.len();
    let mut out: Vec<AlertRoute> = Vec::new();
    let mut i: usize = 0;
    assert(route_views(out@) =~= recipient_routes(recipients@.take(0)));
    while i < n
        invariant
            n == recipients@.len(),
            0 <= i <= n,
            route_views(out@) == recipient_routes(recipients@.take(i as int)),
        decreases n - i,
    {
        let ghost before = route_views(out@);
        out.push(AlertRoute::webhook(recipients[i].as_str()));
        proof {
            assert(route_views(out@) =~= before.push(("webhook"@, recipients@[i as int]@)));
            assert(recipient_routes(recipients@.take(i + 1)) =~= recipient_routes(
                recipients@.take(i as int),
            ).push(("webhook"@, recipients@[i as int]@)));
        }
        i = i + 1;
    }
    assert(recipients@.take(n as int) =~= recipients@);
    out
}

impl AlertRouterConfig {
    /// Builds the rules from a monitoring configuration: the condition of an
    /// alert is its scope, each recipient a webhook. A severity that is not
    /// known is an error.
    pub fn from_monitoring_config(monitoring: Option<&MonitoringConfig>) -> (r: Result<
        Self,
        AnchorKitError,
    >)
        ensures
            match r {
                Ok(c) => {
                    &&& forall|i: int|
                        0 <= i < configured_alerts(monitoring).len() ==> severity_of(
                            (#[trigger] configured_alerts(monitoring)[i]).severity@,
                        ) is Some
                    &&& rule_views(c.rules@) == alert_rules(configured_alerts(monitoring))
                    &&& c.default_routes@.len() == 0
                },
                Err(e) => exists|i: int|
                    #[trigger] first_bad(configured_alerts(monitoring), i) && e.is_validation(
                        bad_severity_text(
                            debug_text(configured_alerts(monitoring)[i].severity@),
                        ),
                    ),
            },
    {
        let config: &MonitoringConfig = match monitoring {
            None => {
                let c = AlertRouterConfig { rules: Vec::new(), default_routes: Vec::new() };
                assert(rule_views(c.rules@) =~= alert_rules(Seq::empty()));
                return Ok(c);
            },
            Some(c) => c,
        };
        let alerts: &Vec<AlertConfig> = match &config.alerts {
            None => {
                let c = AlertRouterConfig { rules: Vec::new(), default_routes: Vec::new() };
                assert(rule_views(c.rules@) =~= alert_rules(Seq::empty()));
                return Ok(c);
            },
            Some(a) => a,
        };
        let ghost all = alerts@;
        let n: usize = alerts.len();
        let mut rules: Vec<AlertRule> = Vec::new();
        let mut i: usize = 0;
        assert(rule_views(rules@) =~= alert_rules(all.take(0)));
        while i < n
            invariant
                n == alerts@.len(),
                all == alerts@,
                all == configured_alerts(monitoring),
                0 <= i <= n,
                forall|j: int| 0 <= j < i ==> severity_of((#[trigger] all[j]).severity@) is Some,
                rule_views(rules@) == alert_rules(all.take(i as int)),
            decreases n - i,
        {
            let alert: &AlertConfig = &alerts[i];
            match AlertSeverity::from_str(alert.severity.as_str()) {
                None => {
                    assert(first_bad(all, i as int));
                    let quoted: String = debug_format(alert.severity.as_str());
                    return Err(bad_severity(quoted.as_str()));
                },
                Some(severity) => {
                    let scope: Option<String> = if alert.condition.as_str().is_empty() {
                        None
                    } else {
                        Some(alert.condition.clone())
                    };
                    let routes: Vec<AlertRoute> = webhook_routes(&alert.recipients);
                    let ghost before = rule_views(rules@);
                    rules.push(AlertRule { severity, scope, routes });
                    proof {
                        assert(rules@.last()@ == alert_rule(*alert));
                        assert(rule_views(rules@) =~= before.push(alert_rule(*alert)));
                        assert(alert_rules(all.take(i + 1)) =~= alert_rules(
                            all.take(i as int),
                        ).push(alert_rule(*alert)));
                    }
                },
            }
            i = i + 1;
        }
        assert(all.take(n as int) =~= all);
        Ok(AlertRouterConfig { rules, default_routes: Vec::new() })
    }
}

} // verus!
