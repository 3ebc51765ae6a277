//! Per-request configuration and the untyped plugin configuration tree.
//!
//! A `StatsConfig` is built fresh for each request from the decoded query
//! parameters and the process-wide plugin configuration.  Collectors consult
//! `plugin_config[name]` at call time; the one standardized convention is a
//! boolean `disabled` flag nested under the collector's own key.  Any shape
//! mismatch in the untyped tree counts as "not configured", never a failure.

use vstd::prelude::*;

verus! {

/// How a point in time is rendered in a document.
#[derive(Debug, Clone, Copy, PartialEq, Eq, Structural)]
pub enum DateFormat {
    Epoch,
    Local,
    Utc,
}

/// Untyped plugin configuration: a recursive tagged union loaded once at
/// startup and never mutated afterward.
#[derive(Debug, PartialEq, Eq)]
pub enum ConfigValue {
    Null,
    Bool(bool),
    Number(u8),
    Text(String),
    List(Vec<ConfigValue>),
    Table(Vec<(String, ConfigValue)>),
}

/// Why a collector's contribution could not be produced.
///
/// The collectors bundled here absorb OS query failures into null fields, so
/// they never return an error; the variants give the contract its shape for
/// collectors that cannot.
#[derive(Debug, Clone, Copy, PartialEq, Eq, Structural)]
pub enum CollectError {
    OsQueryFailure,
    SerializationFailure,
    ConfigShapeFailure,
}

/// The per-request configuration handed to every collector invocation.
pub struct StatsConfig {
    pub date_format: DateFormat,
    pub human_readable: bool,
    /// All raw query parameters, verbatim, for collector-specific use.
    pub query_other: Vec<(String, String)>,
    /// The process-wide plugin configuration tree, namespaced per collector
    /// name.
    pub plugin_config: Vec<(String, ConfigValue)>,
}

/// The value under the first entry of `entries` whose key reads `key`, if any.
pub open spec fn spec_lookup<V>(entries: Seq<(String, V)>, key: Seq<char>) -> Option<V>
    decreases entries.len(),
{
    if entries.len() == 0 {
        None
    } else if entries[0].0@ == key {
        Some(entries[0].1)
    } else {
        spec_lookup(entries.subrange(1, entries.len() as int), key)
    }
}

proof fn lemma_lookup_skip_mismatches<V>(entries: Seq<(String, V)>, key: Seq<char>, i: int)
    requires
        0 <= i <= entries.len(),
        forall|j: int| 0 <= j < i ==> entries[j].0@ != key,
    ensures
        spec_lookup(entries, key) == spec_lookup(entries.subrange(i, entries.len() as int), key),
    decreases i,
{
    if i == 0 {
        assert(entries.subrange(0, entries.len() as int) =~= entries);
    } else {
        assert(entries[0].0@ != key);
        assert(entries.subrange(1, entries.len() as int).subrange(i - 1, entries.len() - 1)
            =~= entries.subrange(i, entries.len() as int));
        lemma_lookup_skip_mismatches(entries.subrange(1, entries.len() as int), key, i - 1);
    }
}

/// Whether two string slices read the same.
pub fn str_eq(a: &str, b: &str) -> (r: bool)
    ensures
        r == (a@ == b@),
{
    let oa = a.to_owned();
    let ob = b.to_owned();
    oa == ob
}

/// Finds the first entry of `entries` whose key reads `key`.
pub fn assoc_lookup<'a, V>(entries: &'a Vec<(String, V)>, key: &str) -> (r: Option<&'a V>)
    ensures
        match r {
            Some(v) => spec_lookup(entries@, key@) == Some(*v),
            None => spec_lookup(entries@, key@) is None,
        },
{
    let n = entries.len();
    let mut i: usize = 0;
    while i < n
        invariant
            n == entries@.len(),
            i <= n,
            forall|j: int| 0 <= j < i ==> entries@[j].0@ != key@,
        decreases n - i,
    {
        if str_eq(entries[i].0.as_str(), key) {
            proof {
                lemma_lookup_skip_mismatches(entries@, key@, i as int);
                assert(entries@.subrange(i as int, entries@.len() as int)[0] == entries@[i as int]);
            }
            return Some(&entries[i].1);
        }
        i += 1;
    }
    proof {
        lemma_lookup_skip_mismatches(entries@, key@, n as int);
    }
    None
}

/// Whether the plugin configuration switches the collector called `name` off:
/// a `disabled` flag set to true under the collector's own key.  Anything
/// else — no entry, an entry of another shape — counts as not disabled.
pub open spec fn spec_plugin_disabled(
    plugin_config: Seq<(String, ConfigValue)>,
    name: Seq<char>,
) -> bool {
    match spec_lookup(plugin_config, name) {
        Some(ConfigValue::Table(t)) => match spec_lookup(t@, "disabled"@) {
            Some(ConfigValue::Bool(b)) => b,
            _ => false,
        },
        _ => false,
    }
}

/// Reads the standardized `disabled` flag for the collector called `name`.
pub fn plugin_disabled(plugin_config: &Vec<(String, ConfigValue)>, name: &str) -> (r: bool)
    ensures
        r == spec_plugin_disabled(plugin_config@, name@),
{
    match assoc_lookup(plugin_config, name) {
        Some(ConfigValue::Table(t)) => match assoc_lookup(t, "disabled") {
            Some(ConfigValue::Bool(b)) => *b,
            _ => false,
        },
        _ => false,
    }
}

/// The date format a raw parameter value selects, if it names one.
pub open spec fn spec_parse_date_format(s: Seq<char>) -> Option<DateFormat> {
    if s == "epoch"@ {
        Some(DateFormat::Epoch)
    } else if s == "local"@ {
        Some(DateFormat::Local)
    } else if s == "utc"@ {
        Some(DateFormat::Utc)
    } else {
        None
    }
}

/// Parses a `date_format` query value: `epoch`, `local` or `utc`.
pub fn parse_date_format(s: &str) -> (r: Option<DateFormat>)
    ensures
        r == spec_parse_date_format(s@),
{
    if str_eq(s, "epoch") {
        Some(DateFormat::Epoch)
    } else if str_eq(s, "local") {
        Some(DateFormat::Local)
    } else if str_eq(s, "utc") {
        Some(DateFormat::Utc)
    } else {
        None
    }
}

/// The date format a request's parameters select: the value under
/// `date_format` when it names one, the epoch default otherwise.
pub open spec fn spec_date_format_of(params: Seq<(String, String)>) -> DateFormat {
    match spec_lookup(params, "date_format"@) {
        Some(v) => match spec_parse_date_format(v@) {
            Some(f) => f,
            None => DateFormat::Epoch,
        },
        None => DateFormat::Epoch,
    }
}

/// Whether a request's parameters ask for human-readable sizes: a
/// `human_readable` parameter reading `true`; anything else is the default.
pub open spec fn spec_human_readable_of(params: Seq<(String, String)>) -> bool {
    match spec_lookup(params, "human_readable"@) {
        Some(v) => v@ == "true"@,
        None => false,
    }
}

/// Builds the per-request configuration from the decoded query parameters and
/// the process-wide plugin configuration.
///
/// An absent or malformed option falls back to its default: epoch dates,
/// byte-count sizes.  All parameters, including the recognized ones, are kept
/// verbatim in `query_other`.
pub fn build_config(
    params: Vec<(String, String)>,
    plugin_config: Vec<(String, ConfigValue)>,
) -> (r: StatsConfig)
    ensures
        r.date_format == spec_date_format_of(params@),
        r.human_readable == spec_human_readable_of(params@),
        r.query_other == params,
        r.plugin_config == plugin_config,
{
    let date_format = match assoc_lookup(&params, "date_format") {
        Some(v) => match parse_date_format(v.as_str()) {
            Some(f) => f,
            None => DateFormat::Epoch,
        },
        None => DateFormat::Epoch,
    };
    let human_readable = match assoc_lookup(&params, "human_readable") {
        Some(v) => str_eq(v.as_str(), "true"),
        None => false,
    };
    StatsConfig { date_format, human_readable, query_other: params, plugin_config }
}

} // verus!
