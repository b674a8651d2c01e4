//! Telemetry settings: the switch that silences logging, the log filter by target, and
//! the exporters that a builder's settings call for.

use vstd::prelude::*;
use std::sync::Arc;
use std::sync::atomic::{AtomicBool, Ordering};

verus! {

/// A switch that silences every log event while it is off; its clones share one state.
#[derive(Debug, Clone)]
pub struct LoggingSwitch(Arc<AtomicBool>);

impl LoggingSwitch {
    /// A switch, on or off as `enabled` says.
    pub fn new(enabled: bool) -> Self {
        LoggingSwitch(Arc::new(AtomicBool::new(enabled)))
    }

    /// Whether events pass. The state is shared with every clone and may be switched from
    /// elsewhere at any moment, so nothing is known of the answer beforehand.
    pub fn is_enabled(&self) -> bool {
        self.0.load(Ordering::Relaxed)
    }

    /// Lets events pass again.
    pub fn enable(&self) {
        self.0.store(true, Ordering::Relaxed);
    }

    /// Silences every event.
    pub fn disable(&self) {
        self.0.store(false, Ordering::Relaxed);
    }
}

/// The protocols telemetry can be exported with.
#[derive(Debug, Clone, Copy, PartialEq, Eq, Hash)]
pub enum TelemetryProtocol {
    Http,
}

impl TelemetryProtocol {
    /// The protocol's name as configuration writes it.
    pub fn name(&self) -> (s: String)
        ensures
            s@ == "http"@,
    {
        match self {
            TelemetryProtocol::Http => "http".to_owned(),
        }
    }
}

impl Default for TelemetryProtocol {
    fn default() -> (p: Self)
        ensures
            p == TelemetryProtocol::Http,
    {
        TelemetryProtocol::Http
    }
}

/// The level of a log event, from the most to the least severe.
#[derive(Debug, Clone, Copy, PartialEq, Eq)]
pub enum Level {
    Error,
    Warn,
    Info,
    Debug,
    Trace,
}

/// How verbose a level is: the error level is the least verbose.
pub open spec fn verbosity(l: Level) -> int {
    match l {
        Level::Error => 1,
        Level::Warn => 2,
        Level::Info => 3,
        Level::Debug => 4,
        Level::Trace => 5,
    }
}

fn level_rank(l: Level) -> (r: u8)
    ensures
        r == verbosity(l),
{
    match l {
        Level::Error => 1,
        Level::Warn => 2,
        Level::Info => 3,
        Level::Debug => 4,
        Level::Trace => 5,
    }
}

/// A cap on the events of the targets that start with `prefix`: only those at `max` or
/// less verbose pass.
#[derive(Debug, Clone)]
pub struct TargetLevel {
    pub prefix: String,
    pub max: Level,
}

/// The index of the first rule whose prefix starts `target`, if any.
pub open spec fn first_match(rules: Seq<TargetLevel>, target: Seq<char>) -> Option<int>
    decreases rules.len(),
{
    if rules.len() == 0 {
        None
    } else if target.len() >= rules[0].prefix@.len() && target.subrange(0, rules[0].prefix@.len() as int) == rules[0].prefix@ {
        Some(0)
    } else {
        match first_match(rules.drop_first(), target) {
            Some(i) => Some(i + 1),
            None => None,
        }
    }
}

/// Whether an event of `target` at `level` passes the rules: the first rule whose prefix
/// starts the target decides; a target that no rule names passes.
pub open spec fn admitted(rules: Seq<TargetLevel>, target: Seq<char>, level: Level) -> bool {
    match first_match(rules, target) {
        Some(i) => verbosity(level) <= verbosity(rules[i].max),
        None => true,
    }
}

/// Whether `prefix` starts `s`.
pub fn starts_with(s: &str, prefix: &str) -> (r: bool)
    ensures
        r == (s@.len() >= prefix@.len() && s@.subrange(0, prefix@.len() as int) == prefix@),
{
    let n = s.unicode_len();
    let m = prefix.unicode_len();
    if n < m {
        return false;
    }
    let mut i: usize = 0;
    while i < m
        invariant
            m == prefix@.len(),
            n == s@.len(),
            m <= n,
            i <= m,
            forall|k: int| 0 <= k < i ==> s@[k] == prefix@[k],
        decreases m - i,
    {
        if s.get_char(i) != prefix.get_char(i) {
            assert(s@.subrange(0, m as int)[i as int] != prefix@[i as int]);
            return false;
        }
        i = i + 1;
    }
    assert(s@.subrange(0, m as int) =~= prefix@);
    true
}

/// A filter of log events by target.
#[derive(Debug, Clone)]
pub struct LogFilter {
    pub rules: Vec<TargetLevel>,
}

impl LogFilter {
    /// The filter the service runs with: the telemetry exporters' own events pass only at
    /// the error level, so that exporting does not feed on itself.
    pub fn service_default() -> (f: Self)
        ensures
            f.rules@.len() == 1,
            f.rules@[0].prefix@ == "opentelemetry"@,
            f.rules@[0].max == Level::Error,
    {
        let mut rules: Vec<TargetLevel> = Vec::new();
        rules.push(TargetLevel { prefix: "opentelemetry".to_owned(), max: Level::Error });
        LogFilter { rules }
    }

    /// Whether an event of `target` at `level` passes.
    pub fn admits(&self, target: &str, level: Level) -> (r: bool)
        ensures
            r == admitted(self.rules@, target@, level),
    {
        let mut i: usize = 0;
        assert(self.rules@.subrange(0, self.rules@.len() as int) =~= self.rules@);
        while i < self.rules.len()
            invariant
                i <= self.rules@.len(),
                first_match(self.rules@, target@) == (match first_match(self.rules@.subrange(i as int, self.rules@.len() as int), target@) {
                    Some(j) => Some(j + i),
                    None => None,
                }),
            decreases self.rules@.len() - i,
        {
            let rule = &self.rules[i];
            let ghost rest = self.rules@.subrange(i as int, self.rules@.len() as int);
            assert(rest[0] == self.rules@[i as int]);
            assert(rest.drop_first() =~= self.rules@.subrange(i + 1, self.rules@.len() as int));
            if starts_with(target, rule.prefix.as_str()) {
                return level_rank(level) <= level_rank(rule.max);
            }
            i = i + 1;
        }
        assert(self.rules@.subrange(i as int, self.rules@.len() as int).len() == 0);
        true
    }
}

/// Whether `prefix` starts `target`.
pub open spec fn starts(target: Seq<char>, prefix: Seq<char>) -> bool {
    target.len() >= prefix.len() && target.subrange(0, prefix.len() as int) == prefix
}

/// The rule that decides is one whose prefix starts the target, with none before it.
proof fn lemma_first_match_found(rules: Seq<TargetLevel>, target: Seq<char>)
    ensures
        first_match(rules, target) matches Some(i) ==> 0 <= i < rules.len() && starts(target, rules[i].prefix@)
            && forall|j: int| 0 <= j < i ==> !starts(target, #[trigger] rules[j].prefix@),
        first_match(rules, target) is None ==> forall|j: int| 0 <= j < rules.len() ==> !starts(target, #[trigger] rules[j].prefix@),
    decreases rules.len(),
{
    if rules.len() > 0 {
        let rest = rules.drop_first();
        lemma_first_match_found(rest, target);
        if !starts(target, rules[0].prefix@) {
            assert forall|j: int| 1 <= j < rules.len() implies #[trigger] rules[j] == rest[j - 1] by {}
            match first_match(rest, target) {
                Some(i) => {
                    assert(first_match(rules, target) == Some(i + 1));
                    assert(rules[i + 1] == rest[i]);
                    assert forall|j: int| 0 <= j < i + 1 implies !starts(target, #[trigger] rules[j].prefix@) by {
                        if j > 0 {
                            assert(rules[j] == rest[j - 1]);
                        }
                    }
                },
                None => {
                    assert(first_match(rules, target) is None);
                    assert forall|j: int| 0 <= j < rules.len() implies !starts(target, #[trigger] rules[j].prefix@) by {
                        if j > 0 {
                            assert(rules[j] == rest[j - 1]);
                        }
                    }
                },
            }
        }
    }
}

/// How a log filter treats events: error events always pass; an event passes whenever a
/// more verbose event of the same target does; a target that no rule's prefix starts
/// passes at every level; otherwise the first rule whose prefix starts the target caps it.
pub proof fn lemma_log_filter_caps(rules: Seq<TargetLevel>, target: Seq<char>, level: Level, quieter: Level)
    ensures
        admitted(rules, target, Level::Error),
        verbosity(quieter) <= verbosity(level) && admitted(rules, target, level) ==> admitted(rules, target, quieter),
        (forall|j: int| 0 <= j < rules.len() ==> !starts(target, #[trigger] rules[j].prefix@)) ==> admitted(rules, target, level),
        forall|i: int| 0 <= i < rules.len() && starts(target, rules[i].prefix@)
            && (forall|j: int| 0 <= j < i ==> !starts(target, #[trigger] rules[j].prefix@))
            ==> (admitted(rules, target, level) <==> verbosity(level) <= verbosity(#[trigger] rules[i].max)),
{
    lemma_first_match_found(rules, target);
    assert forall|i: int| 0 <= i < rules.len() && starts(target, rules[i].prefix@)
        && (forall|j: int| 0 <= j < i ==> !starts(target, #[trigger] rules[j].prefix@))
        implies (admitted(rules, target, level) <==> verbosity(level) <= verbosity(#[trigger] rules[i].max)) by {
        let k = first_match(rules, target)->Some_0;
        if k < i {
            assert(starts(target, rules[k].prefix@));
        }
        if i < k {
            assert(!starts(target, rules[i].prefix@));
        }
    }
}

/// What a telemetry builder collects.
pub struct TelemetryBuilder {
    endpoint: Option<String>,
    service_name: Option<String>,
    environment: Option<String>,
    protocol: Option<TelemetryProtocol>,
    log_level: Option<String>,
    log_filter: Option<LogFilter>,
}

/// An optional text, as text.
pub open spec fn opt_text(s: Option<String>) -> Option<Seq<char>> {
    match s {
        Some(t) => Some(t@),
        None => None,
    }
}

/// The builder's settings, as text.
pub struct TelemetrySettings {
    pub endpoint: Option<Seq<char>>,
    pub service_name: Option<Seq<char>>,
    pub environment: Option<Seq<char>>,
    pub protocol: Option<TelemetryProtocol>,
    pub log_level: Option<Seq<char>>,
    pub log_filter: Option<Seq<TargetLevel>>,
}

/// Where traces, metrics and logs are sent to, and under which names.
#[derive(Debug)]
pub struct ExportPlan {
    pub protocol: TelemetryProtocol,
    pub service_name: String,
    pub environment: String,
    pub traces_url: String,
    pub metrics_url: String,
    pub logs_url: String,
}

/// What a builder's settings call for: the log level, the log filter, and the exporters
/// when an endpoint is set.
#[derive(Debug)]
pub struct TelemetryPlan {
    pub log_level: String,
    pub log_filter: Option<LogFilter>,
    pub export: Option<ExportPlan>,
}

/// `base` followed by `suffix`.
fn joined(base: &str, suffix: &str) -> (s: String)
    ensures
        s@ == base@ + suffix@,
{
    let mut s = base.to_owned();
    s.append(suffix);
    s
}

impl TelemetryBuilder {
    pub closed spec fn settings(&self) -> TelemetrySettings {
        TelemetrySettings {
            endpoint: opt_text(self.endpoint),
            service_name: opt_text(self.service_name),
            environment: opt_text(self.environment),
            protocol: self.protocol,
            log_level: opt_text(self.log_level),
            log_filter: match self.log_filter {
                Some(f) => Some(f.rules@),
                None => None,
            },
        }
    }

    /// Nothing set.
    pub fn new() -> (b: Self)
        ensures
            b.settings() == (TelemetrySettings {
                endpoint: None,
                service_name: None,
                environment: None,
                protocol: None,
                log_level: None,
                log_filter: None,
            }),
    {
        TelemetryBuilder {
            endpoint: None,
            service_name: None,
            environment: None,
            protocol: None,
            log_level: None,
            log_filter: None,
        }
    }

    pub fn endpoint(self, endpoint: String) -> (b: Self)
        ensures
            b.settings() == (TelemetrySettings { endpoint: Some(endpoint@), ..self.settings() }),
    {
        TelemetryBuilder { endpoint: Some(endpoint), ..self }
    }

    /// Sets the endpoint when one is given; leaves the builder as it was otherwise.
    pub fn maybe_endpoint(self, endpoint: Option<String>) -> (b: Self)
        ensures
            b.settings() == (match endpoint {
                Some(e) => TelemetrySettings { endpoint: Some(e@), ..self.settings() },
                None => self.settings(),
            }),
    {
        match endpoint {
            Some(e) => TelemetryBuilder { endpoint: Some(e), ..self },
            None => self,
        }
    }

    pub fn service_name(self, service_name: String) -> (b: Self)
        ensures
            b.settings() == (TelemetrySettings { service_name: Some(service_name@), ..self.settings() }),
    {
        TelemetryBuilder { service_name: Some(service_name), ..self }
    }

    pub fn environment(self, environment: String) -> (b: Self)
        ensures
            b.settings() == (TelemetrySettings { environment: Some(environment@), ..self.settings() }),
    {
        TelemetryBuilder { environment: Some(environment), ..self }
    }

    pub fn protocol(self, protocol: TelemetryProtocol) -> (b: Self)
        ensures
            b.settings() == (TelemetrySettings { protocol: Some(protocol), ..self.settings() }),
    {
        TelemetryBuilder { protocol: Some(protocol), ..self }
    }

    pub fn log_level(self, log_level: String) -> (b: Self)
        ensures
            b.settings() == (TelemetrySettings { log_level: Some(log_level@), ..self.settings() }),
    {
        TelemetryBuilder { log_level: Some(log_level), ..self }
    }

    pub fn log_filter(self, log_filter: LogFilter) -> (b: Self)
        ensures
            b.settings() == (TelemetrySettings { log_filter: Some(log_filter.rules@), ..self.settings() }),
    {
        TelemetryBuilder { log_filter: Some(log_filter), ..self }
    }

    /// What the settings call for. The log level defaults to `info`. With an endpoint,
    /// traces, metrics and logs go to its `/v1/traces`, `/v1/metrics` and `/v1/logs`, over
    /// the chosen protocol (HTTP by default); exporting needs a service name and an
    /// environment.
    pub fn plan(self) -> (p: TelemetryPlan)
        requires
            self.settings().endpoint is Some ==> self.settings().service_name is Some,
            self.settings().endpoint is Some ==> self.settings().environment is Some,
        ensures
            p.log_level@ == (match self.settings().log_level { Some(l) => l, None => "info"@ }),
            (match p.log_filter { Some(f) => Some(f.rules@), None => None }) == self.settings().log_filter,
            self.settings().endpoint is None <==> p.export is None,
            p.export matches Some(x) ==> {
                let e = self.settings().endpoint->0;
                &&& x.protocol == (match self.settings().protocol { Some(q) => q, None => TelemetryProtocol::Http })
                &&& Some(x.service_name@) == self.settings().service_name
                &&& Some(x.environment@) == self.settings().environment
                &&& x.traces_url@ == e + "/v1/traces"@
                &&& x.metrics_url@ == e + "/v1/metrics"@
                &&& x.logs_url@ == e + "/v1/logs"@
            },
    {
        let log_level = match self.log_level {
            Some(l) => l,
            None => "info".to_owned(),
        };
        let export = match self.endpoint {
            Some(endpoint) => {
                let protocol = match self.protocol {
                    Some(q) => q,
                    None => TelemetryProtocol::Http,
                };
                let service_name = match self.service_name {
                    Some(s) => s,
                    None => { assert(false); String::new() },
                };
                let environment = match self.environment {
                    Some(s) => s,
                    None => { assert(false); String::new() },
                };
                Some(ExportPlan {
                    protocol,
                    service_name,
                    environment,
                    traces_url: joined(endpoint.as_str(), "/v1/traces"),
                    metrics_url: joined(endpoint.as_str(), "/v1/metrics"),
                    logs_url: joined(endpoint.as_str(), "/v1/logs"),
                })
            },
            None => None,
        };
        TelemetryPlan { log_level, log_filter: self.log_filter, export }
    }
}

/// The builder the service starts with: its name, the exporter endpoint if one is
/// configured, the log level (`info` by default), the environment (`production` by
/// default) and the service's log filter.
pub fn bootstrap_builder(
    service_name: String,
    otlp_endpoint: Option<String>,
    log_level: Option<String>,
    environment: Option<String>,
) -> (b: TelemetryBuilder)
    ensures
        b.settings().service_name == Some(service_name@),
        b.settings().endpoint == opt_text(otlp_endpoint),
        b.settings().log_level == Some(match log_level { Some(l) => l@, None => "info"@ }),
        b.settings().environment == Some(match environment { Some(e) => e@, None => "production"@ }),
        b.settings().protocol is None,
        b.settings().log_filter matches Some(rules) && rules.len() == 1
            && rules[0].prefix@ == "opentelemetry"@ && rules[0].max == Level::Error,
{
    let level = match log_level {
        Some(l) => l,
        None => "info".to_owned(),
    };
    let env = match environment {
        Some(e) => e,
        None => "production".to_owned(),
    };
    TelemetryBuilder::new()
        .service_name(service_name)
        .maybe_endpoint(otlp_endpoint)
        .log_level(level)
        .environment(env)
        .log_filter(LogFilter::service_default())
}

} // verus!
