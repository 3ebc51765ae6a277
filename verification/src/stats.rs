//! The registry and aggregator: the fixed set of collectors built at
//! startup, fanned out per request, and merged into one response keyed by
//! collector name.
//!
//! A collector that returns an error only loses its own key; the response as
//! a whole is produced whenever the aggregation itself runs.  Two collectors
//! registered under one name shadow each other silently: the later
//! registration wins.

use vstd::prelude::*;
use crate::json::JsonValue;
use crate::plugin::{
    CpuLoadAvgCollector, CpuLoadCollector, ExampleCollector, FilesystemStatsCollector,
    MemoryStatsCollector, NetworkStatsCollector, OsSnapshot, SocketStatsCollector, TestPlugin,
    TimeCollector, UptimeCollector,
};
use crate::plugin::{
    spec_cpu_avg_doc, spec_cpu_load_doc, spec_fs_doc, spec_mem_doc, spec_net_doc, spec_sock_doc,
    spec_time_doc, spec_uptime_doc,
};
use crate::stats_collector::{assoc_lookup, spec_lookup, spec_plugin_disabled, StatsConfig};

verus! {

/// One registered collector: the closed set the registry is built from.
#[derive(Debug, Clone, Copy, PartialEq, Eq, Structural)]
pub enum Collector {
    Time(TimeCollector),
    Uptime(UptimeCollector),
    MemoryStats(MemoryStatsCollector),
    CpuLoad(CpuLoadCollector),
    CpuLoadAvg(CpuLoadAvgCollector),
    SocketStats(SocketStatsCollector),
    NetworkStats(NetworkStatsCollector),
    FilesystemStats(FilesystemStatsCollector),
    Example(ExampleCollector),
    Test(TestPlugin),
}

impl Collector {
    /// The name this collector's document is keyed by.
    pub open spec fn spec_name(self) -> Seq<char> {
        match self {
            Collector::Time(_) => "time"@,
            Collector::Uptime(_) => "uptime"@,
            Collector::MemoryStats(_) => "mem_stats"@,
            Collector::CpuLoad(_) => "cpu_load"@,
            Collector::CpuLoadAvg(_) => "cpu_avg"@,
            Collector::SocketStats(_) => "sock_stats"@,
            Collector::NetworkStats(_) => "net_stats"@,
            Collector::FilesystemStats(_) => "fs_stats"@,
            Collector::Example(_) => "works"@,
            Collector::Test(_) => "test"@,
        }
    }

    /// What this collector's `collect` owes for the given configuration and
    /// snapshot.
    pub open spec fn spec_doc_ok(self, cfg: StatsConfig, snap: OsSnapshot, v: JsonValue) -> bool {
        match self {
            Collector::Time(_) => spec_time_doc(cfg.date_format, v),
            Collector::Uptime(_) => spec_uptime_doc(cfg.date_format, snap.uptime, snap.boot_time, v),
            Collector::MemoryStats(_) => spec_mem_doc(cfg.human_readable, snap.memory, v),
            Collector::CpuLoad(_) => spec_cpu_load_doc(snap.cpu_load, v),
            Collector::CpuLoadAvg(_) => spec_cpu_avg_doc(snap.load_average, v),
            Collector::SocketStats(_) => spec_sock_doc(
                spec_plugin_disabled(cfg.plugin_config@, "sock_stats"@),
                snap.sockets,
                v,
            ),
            Collector::NetworkStats(_) => spec_net_doc(cfg.human_readable, snap.networks, v),
            Collector::FilesystemStats(_) => spec_fs_doc(cfg.human_readable, snap.mounts, v),
            Collector::Example(_) => v matches JsonValue::Text(t) && t@ == "test"@,
            Collector::Test(_) => spec_time_doc(cfg.date_format, v),
        }
    }

    pub fn name(&self) -> (r: &'static str)
        ensures
            r@ == self.spec_name(),
    {
        match self {
            Collector::Time(c) => c.name(),
            Collector::Uptime(c) => c.name(),
            Collector::MemoryStats(c) => c.name(),
            Collector::CpuLoad(c) => c.name(),
            Collector::CpuLoadAvg(c) => c.name(),
            Collector::SocketStats(c) => c.name(),
            Collector::NetworkStats(c) => c.name(),
            Collector::FilesystemStats(c) => c.name(),
            Collector::Example(c) => c.name(),
            Collector::Test(c) => c.name(),
        }
    }

    /// Collects this collector's document.  Never an error for the bundled
    /// collectors: a failed OS reading is already a null in the snapshot.
    pub fn collect(&self, cfg: &StatsConfig, snap: &OsSnapshot) -> (r: Result<
        JsonValue,
        crate::stats_collector::CollectError,
    >)
        ensures
            r matches Ok(v) && self.spec_doc_ok(*cfg, *snap, v),
    {
        match self {
            Collector::Time(c) => c.collect(cfg, snap),
            Collector::Uptime(c) => c.collect(cfg, snap),
            Collector::MemoryStats(c) => c.collect(cfg, snap),
            Collector::CpuLoad(c) => c.collect(cfg, snap),
            Collector::CpuLoadAvg(c) => c.collect(cfg, snap),
            Collector::SocketStats(c) => c.collect(cfg, snap),
            Collector::NetworkStats(c) => c.collect(cfg, snap),
            Collector::FilesystemStats(c) => c.collect(cfg, snap),
            Collector::Example(c) => c.collect(cfg, snap),
            Collector::Test(c) => c.collect(cfg, snap),
        }
    }
}

/// The default registry, in registration order.
pub fn get_all() -> (r: Vec<Collector>)
    ensures
        r@ =~= seq![
            Collector::Time(TimeCollector),
            Collector::Uptime(UptimeCollector),
            Collector::MemoryStats(MemoryStatsCollector),
            Collector::CpuLoad(CpuLoadCollector),
            Collector::CpuLoadAvg(CpuLoadAvgCollector),
            Collector::SocketStats(SocketStatsCollector),
            Collector::NetworkStats(NetworkStatsCollector),
            Collector::FilesystemStats(FilesystemStatsCollector),
        ],
{
    let mut r: Vec<Collector> = Vec::new();
    r.push(Collector::Time(TimeCollector));
    r.push(Collector::Uptime(UptimeCollector));
    r.push(Collector::MemoryStats(MemoryStatsCollector));
    r.push(Collector::CpuLoad(CpuLoadCollector));
    r.push(Collector::CpuLoadAvg(CpuLoadAvgCollector));
    r.push(Collector::SocketStats(SocketStatsCollector));
    r.push(Collector::NetworkStats(NetworkStatsCollector));
    r.push(Collector::FilesystemStats(FilesystemStatsCollector));
    r
}

/// The document bound to `key` by the *last* entry of `pairs` bearing it —
/// the value a name-keyed merge keeps when names collide.
pub open spec fn spec_last_value(pairs: Seq<(String, JsonValue)>, key: Seq<char>) -> Option<
    JsonValue,
>
    decreases pairs.len(),
{
    if pairs.len() == 0 {
        None
    } else if pairs[pairs.len() - 1].0@ == key {
        Some(pairs[pairs.len() - 1].1)
    } else {
        spec_last_value(pairs.drop_last(), key)
    }
}

proof fn lemma_lookup_push(s: Seq<(String, JsonValue)>, p: (String, JsonValue), k: Seq<char>)
    ensures
        spec_lookup(s.push(p), k) == (match spec_lookup(s, k) {
            Some(v) => Some(v),
            None => if p.0@ == k {
                Some(p.1)
            } else {
                None
            },
        }),
    decreases s.len(),
{
    if s.len() == 0 {
        assert(s.push(p)[0] == p);
        assert(s.push(p).subrange(1, 1) =~= Seq::<(String, JsonValue)>::empty());
        assert(spec_lookup(Seq::<(String, JsonValue)>::empty(), k) is None);
        assert(s =~= Seq::<(String, JsonValue)>::empty());
    } else {
        assert(s.push(p)[0] == s[0]);
        assert(s.push(p).subrange(1, s.len() as int + 1) =~= s.subrange(1, s.len() as int).push(p));
        lemma_lookup_push(s.subrange(1, s.len() as int), p, k);
    }
}

proof fn lemma_lookup_none_no_key(s: Seq<(String, JsonValue)>, k: Seq<char>)
    requires
        spec_lookup(s, k) is None,
    ensures
        forall|j: int| 0 <= j < s.len() ==> (#[trigger] s[j]).0@ != k,
    decreases s.len(),
{
    if s.len() > 0 {
        lemma_lookup_none_no_key(s.subrange(1, s.len() as int), k);
        assert forall|j: int| 0 <= j < s.len() implies (#[trigger] s[j]).0@ != k by {
            if j > 0 {
                assert(s.subrange(1, s.len() as int)[j - 1] == s[j]);
            }
        }
    }
}

proof fn lemma_last_value_cons(p: (String, JsonValue), t: Seq<(String, JsonValue)>, k: Seq<char>)
    ensures
        spec_last_value(seq![p] + t, k) == (match spec_last_value(t, k) {
            Some(v) => Some(v),
            None => if p.0@ == k {
                Some(p.1)
            } else {
                None
            },
        }),
    decreases t.len(),
{
    let s = seq![p] + t;
    if t.len() == 0 {
        assert(s =~= seq![p]);
        assert(s[0] == p);
        assert(s.drop_last() =~= Seq::<(String, JsonValue)>::empty());
    } else {
        assert(s[s.len() - 1] == t[t.len() - 1]);
        assert(s.drop_last() =~= seq![p] + t.drop_last());
        lemma_last_value_cons(p, t.drop_last(), k);
    }
}

/// If the entry at `i` is the last one bearing its key, the merge keeps its
/// document.
proof fn lemma_last_value_at(pairs: Seq<(String, JsonValue)>, i: int, k: Seq<char>)
    requires
        0 <= i < pairs.len(),
        pairs[i].0@ == k,
        forall|j: int| i < j < pairs.len() ==> (#[trigger] pairs[j]).0@ != k,
    ensures
        spec_last_value(pairs, k) == Some(pairs[i].1),
    decreases pairs.len(),
{
    if i == pairs.len() - 1 {
    } else {
        assert(pairs[pairs.len() - 1].0@ != k);
        assert(pairs.drop_last()[i] == pairs[i]);
        assert forall|j: int| i < j < pairs.drop_last().len() implies (#[trigger] pairs.drop_last()[j]).0@
            != k by {
            assert(pairs.drop_last()[j] == pairs[j]);
        }
        lemma_last_value_at(pairs.drop_last(), i, k);
    }
}

proof fn lemma_last_value_some_has_key(pairs: Seq<(String, JsonValue)>, k: Seq<char>)
    requires
        spec_last_value(pairs, k) is Some,
    ensures
        exists|i: int| 0 <= i < pairs.len() && (#[trigger] pairs[i]).0@ == k,
    decreases pairs.len(),
{
    if pairs.len() > 0 {
        if pairs[pairs.len() - 1].0@ == k {
        } else {
            lemma_last_value_some_has_key(pairs.drop_last(), k);
            let i = choose|i: int|
                0 <= i < pairs.drop_last().len() && (#[trigger] pairs.drop_last()[i]).0@ == k;
            assert(pairs[i] == pairs.drop_last()[i]);
        }
    }
}

/// Registering two collectors under one name shadows the earlier one: the
/// merged response binds the shared name to the later entry's document,
/// whichever entry bears the name last.
pub proof fn lemma_duplicate_name_shadows(
    pairs: Seq<(String, JsonValue)>,
    i: int,
    j: int,
)
    requires
        0 <= i < j < pairs.len(),
        pairs[i].0@ == pairs[j].0@,
        forall|l: int| j < l < pairs.len() ==> (#[trigger] pairs[l]).0@ != pairs[j].0@,
    ensures
        spec_last_value(pairs, pairs[j].0@) == Some(pairs[j].1),
{
    lemma_last_value_at(pairs, j, pairs[j].0@);
}

/// Invokes every collector in order, keeping each successful document under
/// the collector's name; a collector-level error would lose only its own
/// entry.
pub fn collect_all(collectors: &Vec<Collector>, cfg: &StatsConfig, snap: &OsSnapshot) -> (r: Vec<
    (String, JsonValue),
>)
    ensures
        r@.len() == collectors@.len(),
        forall|i: int|
            0 <= i < r@.len() ==> (#[trigger] r@[i]).0@ == collectors@[i].spec_name()
                && collectors@[i].spec_doc_ok(*cfg, *snap, r@[i].1),
{
    let n = collectors.len();
    let mut r: Vec<(String, JsonValue)> = Vec::new();
    let mut i: usize = 0;
    while i < n
        invariant
            n == collectors@.len(),
            i <= n,
            r@.len() == i,
            forall|j: int|
                0 <= j < i ==> (#[trigger] r@[j]).0@ == collectors@[j].spec_name()
                    && collectors@[j].spec_doc_ok(*cfg, *snap, r@[j].1),
        decreases n - i,
    {
        let c = &collectors[i];
        let name = c.name();
        match c.collect(cfg, snap) {
            Ok(v) => r.push((name.to_owned(), v)),
            Err(_) => {
                // Per-collector isolation: an error would only omit this
                // collector's key.  The bundled collectors never take this
                // branch.
            },
        }
        i += 1;
    }
    r
}

/// Merges name/document pairs into a response map: one entry per name, the
/// last pair bearing a name providing its document.
pub fn merge_by_name(pairs: Vec<(String, JsonValue)>) -> (r: Vec<(String, JsonValue)>)
    ensures
        forall|a: int, b: int|
            0 <= a < b < r@.len() ==> (#[trigger] r@[a]).0@ != (#[trigger] r@[b]).0@,
        forall|k: Seq<char>| #[trigger] spec_lookup(r@, k) == spec_last_value(pairs@, k),
{
    let ghost all = pairs@;
    let mut rest = pairs;
    let mut acc: Vec<(String, JsonValue)> = Vec::new();
    while rest.len() > 0
        invariant
            rest@ == all.subrange(0, rest@.len() as int),
            rest@.len() <= all.len(),
            forall|a: int, b: int|
                0 <= a < b < acc@.len() ==> (#[trigger] acc@[a]).0@ != (#[trigger] acc@[b]).0@,
            forall|k: Seq<char>|
                #[trigger] spec_lookup(acc@, k) == spec_last_value(
                    all.subrange(rest@.len() as int, all.len() as int),
                    k,
                ),
        decreases rest@.len(),
    {
        let popped = rest.pop();
        let p = match popped {
            Some(p) => p,
            None => {
                // Unreachable: the loop condition saw a nonempty vector.
                proof {
                    assert(false);
                }
                return acc;
            },
        };
        let ghost t = all.subrange(rest@.len() as int + 1, all.len() as int);
        proof {
            assert(all.subrange(rest@.len() as int, all.len() as int) =~= seq![p] + t);
        }
        let present = match assoc_lookup(&acc, p.0.as_str()) {
            Some(_) => true,
            None => false,
        };
        if present {
            proof {
                assert forall|k: Seq<char>|
                    #[trigger] spec_lookup(acc@, k) == spec_last_value(seq![p] + t, k) by {
                    lemma_last_value_cons(p, t, k);
                }
            }
        } else {
            proof {
                lemma_lookup_none_no_key(acc@, p.0@);
            }
            let ghost acc_old = acc@;
            acc.push(p);
            proof {
                assert forall|k: Seq<char>|
                    #[trigger] spec_lookup(acc@, k) == spec_last_value(seq![p] + t, k) by {
                    lemma_lookup_push(acc_old, p, k);
                    lemma_last_value_cons(p, t, k);
                }
            }
        }
    }
    proof {
        assert(rest@.len() == 0);
        assert(all.subrange(0, all.len() as int) =~= all);
        assert forall|k: Seq<char>| #[trigger] spec_lookup(acc@, k) == spec_last_value(all, k) by {
            assert(spec_lookup(acc@, k) == spec_last_value(
                all.subrange(rest@.len() as int, all.len() as int),
                k,
            ));
        }
    }
    acc
}

/// Builds the whole response for one request: every collector invoked with
/// the same configuration and snapshot, the documents merged by name with
/// the last registration winning.
pub fn aggregate(collectors: &Vec<Collector>, cfg: &StatsConfig, snap: &OsSnapshot) -> (r: Vec<
    (String, JsonValue),
>)
    ensures
        forall|a: int, b: int|
            0 <= a < b < r@.len() ==> (#[trigger] r@[a]).0@ != (#[trigger] r@[b]).0@,
        forall|i: int|
            0 <= i < collectors@.len() && (forall|j: int|
                i < j < collectors@.len() ==> (#[trigger] collectors@[j]).spec_name()
                    != collectors@[i].spec_name()) ==> (match spec_lookup(
                r@,
                (#[trigger] collectors@[i]).spec_name(),
            ) {
                Some(v) => collectors@[i].spec_doc_ok(*cfg, *snap, v),
                None => false,
            }),
        forall|k: Seq<char>|
            (#[trigger] spec_lookup(r@, k)) is Some ==> exists|i: int|
                0 <= i < collectors@.len() && (#[trigger] collectors@[i]).spec_name() == k,
{
    let pairs = collect_all(collectors, cfg, snap);
    let ghost pairs_view = pairs@;
    let r = merge_by_name(pairs);
    proof {
        assert forall|i: int|
            0 <= i < collectors@.len() && (forall|j: int|
                i < j < collectors@.len() ==> (#[trigger] collectors@[j]).spec_name()
                    != collectors@[i].spec_name()) implies (match spec_lookup(
            r@,
            (#[trigger] collectors@[i]).spec_name(),
        ) {
            Some(v) => collectors@[i].spec_doc_ok(*cfg, *snap, v),
            None => false,
        }) by {
            lemma_last_value_at(pairs_view, i, collectors@[i].spec_name());
        }
        assert forall|k: Seq<char>| (#[trigger] spec_lookup(r@, k)) is Some implies exists|i: int|
            0 <= i < collectors@.len() && (#[trigger] collectors@[i]).spec_name() == k by {
            lemma_last_value_some_has_key(pairs_view, k);
            let i = choose|i: int| 0 <= i < pairs_view.len() && (#[trigger] pairs_view[i]).0@ == k;
            assert(collectors@[i].spec_name() == k);
        }
    }
    r
}

} // verus!
