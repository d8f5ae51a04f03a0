//! Validation-and-defaulting pipeline that turns raw CLI input into a
//! canonical broker-client configuration.

use vstd::prelude::*;

verus! {

/// CLI-selected logging verbosity.
#[derive(Clone, Copy, Debug, PartialEq, Eq, Structural)]
pub enum LogLevel {
    Debug,
    Info,
    Error,
}

/// The broker client's native log-severity space that `LogLevel` maps onto.
#[derive(Clone, Copy, Debug, PartialEq, Eq, Structural)]
pub enum Severity {
    Debug,
    Info,
    Error,
}

/// The total mapping from CLI verbosity to broker-client severity.
pub open spec fn severity_of(level: LogLevel) -> Severity {
    match level {
        LogLevel::Debug => Severity::Debug,
        LogLevel::Info => Severity::Info,
        LogLevel::Error => Severity::Error,
    }
}

impl LogLevel {
    /// Map this verbosity onto the broker client's severity space.
    /// The match is exhaustive, so the mapping stays total if a
    /// variant is ever added.
    pub fn severity(self) -> (s: Severity)
        ensures
            s == severity_of(self),
    {
        match self {
            LogLevel::Debug => Severity::Debug,
            LogLevel::Info => Severity::Info,
            LogLevel::Error => Severity::Error,
        }
    }
}

/// The verbosity-to-severity mapping is injective: distinct levels never
/// collapse onto one severity.
pub proof fn lemma_severity_of_injective(a: LogLevel, b: LogLevel)
    ensures
        severity_of(a) == severity_of(b) ==> a == b,
{
}

/// The verbosity-to-severity mapping is surjective onto the three defined
/// severities, so together with injectivity it is a bijection between the
/// two spaces.
pub proof fn lemma_severity_of_surjective(s: Severity)
    ensures
        exists|l: LogLevel| severity_of(l) == s,
{
    match s {
        Severity::Debug => {
            assert(severity_of(LogLevel::Debug) == s);
        }
        Severity::Info => {
            assert(severity_of(LogLevel::Info) == s);
        }
        Severity::Error => {
            assert(severity_of(LogLevel::Error) == s);
        }
    }
}

/// Why conversion failed. Carries a display-ready message only.
#[derive(Clone, Debug)]
pub struct ConfigError {
    message: String,
}

impl View for ConfigError {
    type V = Seq<char>;

    closed spec fn view(&self) -> Seq<char> {
        self.message@
    }
}

impl ConfigError {
    /// Wrap a human-readable message in a typed error value.
    pub fn new(message: &str) -> (e: ConfigError)
        ensures
            e@ == message@,
    {
        ConfigError { message: String::from_str(message) }
    }

    /// The human-readable message, suitable for direct display.
    pub fn message(&self) -> (m: String)
        ensures
            m@ == self@,
    {
        self.message.clone()
    }
}

/// The message carried by the one rejection the builder knows.
pub open spec fn bootstrap_error_message() -> Seq<char> {
    "bootstrap servers cannot be empty"@
}

/// The key under which the broker addresses are stored.
pub open spec fn bootstrap_servers_key() -> Seq<char> {
    "bootstrap.servers"@
}

/// The key under which the consumer group identity is stored.
pub open spec fn group_id_key() -> Seq<char> {
    "group.id"@
}

/// The key under which the statistics emission interval is stored.
pub open spec fn statistics_interval_key() -> Seq<char> {
    "statistics.interval.ms"@
}

/// The consumer group used when the CLI supplies none.
pub open spec fn default_group_id() -> Seq<char> {
    "cg.krust"@
}

/// The fixed statistics emission interval, in milliseconds.
pub open spec fn statistics_interval_value() -> Seq<char> {
    "10000"@
}

/// The group identity a build stores: the supplied one verbatim, or the
/// fixed default when the supplied one is empty. An empty group id is
/// normalized, never rejected, because a group default is a legitimate
/// operational convention while a broker-address default is not.
pub open spec fn resolved_group_id(group_id: Seq<char>) -> Seq<char> {
    if group_id.len() == 0 {
        default_group_id()
    } else {
        group_id
    }
}

/// The CLI-supplied raw input: verbosity, broker addresses (an opaque
/// comma-separated list, not parsed here), and consumer group identity.
#[derive(Clone, Debug)]
pub struct Config {
    pub log_level: LogLevel,
    pub bootstrap_servers: String,
    pub group_id: String,
}

/// The mathematical content of a `Config`.
pub ghost struct ConfigView {
    pub log_level: LogLevel,
    pub bootstrap_servers: Seq<char>,
    pub group_id: Seq<char>,
}

impl View for Config {
    type V = ConfigView;

    open spec fn view(&self) -> ConfigView {
        ConfigView {
            log_level: self.log_level,
            bootstrap_servers: self.bootstrap_servers@,
            group_id: self.group_id@,
        }
    }
}

/// The mathematical content of a `ClientConfiguration`.
pub ghost struct ClientConfigurationView {
    pub bootstrap_servers: Seq<char>,
    pub group_id: Seq<char>,
    pub statistics_interval_ms: Seq<char>,
    pub severity: Severity,
}

impl ClientConfigurationView {
    /// The invariants of every successfully built configuration: a
    /// non-empty broker list, a non-empty group identity, and the fixed
    /// statistics interval.
    pub open spec fn wf(self) -> bool {
        &&& self.bootstrap_servers.len() > 0
        &&& self.group_id.len() > 0
        &&& self.statistics_interval_ms == statistics_interval_value()
    }
}

/// What a build returns, stated over views alone: the sole rejection is an
/// empty broker list; otherwise the broker list is kept verbatim, the group
/// identity is resolved, the statistics interval is fixed, and the severity
/// is the mapped verbosity.
pub open spec fn build_spec(c: ConfigView) -> Result<ClientConfigurationView, Seq<char>> {
    if c.bootstrap_servers.len() == 0 {
        Err(bootstrap_error_message())
    } else {
        Ok(
            ClientConfigurationView {
                bootstrap_servers: c.bootstrap_servers,
                group_id: resolved_group_id(c.group_id),
                statistics_interval_ms: statistics_interval_value(),
                severity: severity_of(c.log_level),
            },
        )
    }
}

/// The canonical output: the string-keyed entries the broker client is
/// configured with, plus the resolved log severity. Never mutated after
/// construction.
#[derive(Clone, Debug)]
pub struct ClientConfiguration {
    bootstrap_servers: String,
    group_id: String,
    statistics_interval_ms: String,
    severity: Severity,
}

impl View for ClientConfiguration {
    type V = ClientConfigurationView;

    closed spec fn view(&self) -> ClientConfigurationView {
        ClientConfigurationView {
            bootstrap_servers: self.bootstrap_servers@,
            group_id: self.group_id@,
            statistics_interval_ms: self.statistics_interval_ms@,
            severity: self.severity,
        }
    }
}

impl ClientConfiguration {
    /// The stored broker address list.
    pub fn bootstrap_servers(&self) -> (s: String)
        ensures
            s@ == self@.bootstrap_servers,
    {
        self.bootstrap_servers.clone()
    }

    /// The stored consumer group identity.
    pub fn group_id(&self) -> (s: String)
        ensures
            s@ == self@.group_id,
    {
        self.group_id.clone()
    }

    /// The stored statistics emission interval, in milliseconds.
    pub fn statistics_interval_ms(&self) -> (s: String)
        ensures
            s@ == self@.statistics_interval_ms,
    {
        self.statistics_interval_ms.clone()
    }

    /// The resolved log severity, set through a distinct interface rather
    /// than the string mapping.
    pub fn severity(&self) -> (s: Severity)
        ensures
            s == self@.severity,
    {
        self.severity
    }

    /// The ordered key-value mapping handed, entry by entry, to the broker
    /// client's configuration-setting interface.
    pub fn entries(&self) -> (kv: Vec<(String, String)>)
        ensures
            kv@.len() == 3,
            kv@[0].0@ == bootstrap_servers_key(),
            kv@[0].1@ == self@.bootstrap_servers,
            kv@[1].0@ == group_id_key(),
            kv@[1].1@ == self@.group_id,
            kv@[2].0@ == statistics_interval_key(),
            kv@[2].1@ == self@.statistics_interval_ms,
    {
        let mut kv: Vec<(String, String)> = Vec::new();
        kv.push((String::from_str("bootstrap.servers"), self.bootstrap_servers.clone()));
        kv.push((String::from_str("group.id"), self.group_id.clone()));
        kv.push((String::from_str("statistics.interval.ms"), self.statistics_interval_ms.clone()));
        kv
    }
}

impl Config {
    /// Validate and default the raw input into a canonical configuration.
    ///
    /// A pure, total conversion: an empty broker list is the one rejection,
    /// raised before anything is stored; every other input is normalized.
    pub fn build(self) -> (r: Result<ClientConfiguration, ConfigError>)
        ensures
            r is Ok <==> build_spec(self@) is Ok,
            r is Ok ==> r->Ok_0@ == build_spec(self@)->Ok_0,
            r is Err ==> r->Err_0@ == build_spec(self@)->Err_0,
            r is Ok ==> r->Ok_0@.wf(),
    {
        if self.bootstrap_servers.as_str().is_empty() {
            return Err(ConfigError::new("bootstrap servers cannot be empty"));
        }
        let group_id = if self.group_id.as_str().is_empty() {
            proof {
                reveal_strlit("cg.krust");
            }
            String::from_str("cg.krust")
        } else {
            self.group_id
        };
        Ok(
            ClientConfiguration {
                bootstrap_servers: self.bootstrap_servers,
                group_id,
                statistics_interval_ms: String::from_str("10000"),
                severity: self.log_level.severity(),
            },
        )
    }
}

/// Every successfully built configuration is well formed: the broker list
/// and group identity are non-empty and the statistics interval is fixed.
pub proof fn lemma_build_ok_wf(c: ConfigView)
    ensures
        build_spec(c) is Ok ==> build_spec(c)->Ok_0.wf(),
{
    reveal_strlit("cg.krust");
}

/// Building is deterministic: two successful builds on inputs with
/// identical content yield configurations that are equal field for field.
/// The premises are exactly what `build`'s contract gives of each call.
pub proof fn lemma_build_deterministic(
    a: Config,
    b: Config,
    x: ClientConfiguration,
    y: ClientConfiguration,
)
    requires
        a@ == b@,
        build_spec(a@) is Ok,
        x@ == build_spec(a@)->Ok_0,
        y@ == build_spec(b@)->Ok_0,
    ensures
        x@.bootstrap_servers == y@.bootstrap_servers,
        x@.group_id == y@.group_id,
        x@.statistics_interval_ms == y@.statistics_interval_ms,
        x@.severity == y@.severity,
{
}

} // verus!
