//! The concrete collectors: each turns one family of OS readings into a
//! JSON-like document.
//!
//! The OS metrics source is an external collaborator.  The caller queries it
//! — every reading is optional, a failed query arriving as `None` — and hands
//! an `OsSnapshot` of typed values in; each collector is a total function of
//! the snapshot and the per-request configuration.  A failed reading becomes
//! a null field or a null document, never an error: no collector aborts the
//! response.

use vstd::prelude::*;
use crate::clock::now_epoch;
use crate::json::JsonValue;
use crate::stats_collector::{CollectError, DateFormat, StatsConfig};
use crate::stats_collector::{plugin_disabled, spec_plugin_disabled};
use crate::utils::{date_json, size_json, spec_date_json, spec_size_json};

verus! {

/// Total and free physical memory, in bytes.
#[derive(Debug, Clone, Copy, PartialEq, Eq, Structural)]
pub struct MemorySample {
    pub total: u64,
    pub free: u64,
}

/// One aggregate CPU load measurement.  Each field carries the bit pattern
/// of the IEEE single-precision fraction the OS reported, untouched.
#[derive(Debug, Clone, Copy, PartialEq, Eq, Structural)]
pub struct CpuLoadSample {
    pub user: u32,
    pub nice: u32,
    pub system: u32,
    pub interrupt: u32,
    pub idle: u32,
}

/// The one-, five- and fifteen-minute load averages, as IEEE
/// single-precision bit patterns.
#[derive(Debug, Clone, Copy, PartialEq, Eq, Structural)]
pub struct LoadAvgSample {
    pub one: u32,
    pub five: u32,
    pub fifteen: u32,
}

/// Traffic counters of one network interface.
#[derive(Debug, Clone, Copy, PartialEq, Eq, Structural)]
pub struct NetworkStatsSample {
    pub rx_bytes: u64,
    pub tx_bytes: u64,
    pub rx_packets: u64,
    pub tx_packets: u64,
    pub rx_errors: u64,
    pub tx_errors: u64,
}

/// One network interface: its name, and its counters where the per-interface
/// query succeeded.
#[derive(Debug, PartialEq, Eq)]
pub struct NetworkSample {
    pub name: String,
    pub stats: Option<NetworkStatsSample>,
}

/// Socket counts.
#[derive(Debug, Clone, Copy, PartialEq, Eq, Structural)]
pub struct SocketStatsSample {
    pub tcp_sockets_in_use: u64,
    pub tcp_sockets_orphaned: u64,
    pub udp_sockets_in_use: u64,
    pub tcp6_sockets_in_use: u64,
    pub udp6_sockets_in_use: u64,
}

/// One mounted filesystem.
#[derive(Debug, PartialEq, Eq)]
pub struct MountSample {
    pub fs_mounted_from: String,
    pub fs_type: String,
    pub free: u64,
    pub avail: u64,
    pub total: u64,
}

/// One round of OS readings, gathered by the caller for one request.  `None`
/// anywhere means the corresponding query failed or has produced no value
/// yet.
pub struct OsSnapshot {
    /// Seconds since boot.
    pub uptime: Option<u64>,
    /// Boot time, in seconds since the Unix epoch.
    pub boot_time: Option<u64>,
    pub memory: Option<MemorySample>,
    /// The periodic sampler's latest published CPU load, absent before its
    /// second tick.
    pub cpu_load: Option<CpuLoadSample>,
    pub load_average: Option<LoadAvgSample>,
    pub networks: Option<Vec<NetworkSample>>,
    pub sockets: Option<SocketStatsSample>,
    pub mounts: Option<Vec<MountSample>>,
}

/// Appends a field to an object under construction, leaving the fields
/// already present untouched.
fn push_field(fields: &mut Vec<(String, JsonValue)>, key: &str, value: JsonValue)
    ensures
        final(fields)@.len() == old(fields)@.len() + 1,
        forall|i: int| 0 <= i < old(fields)@.len() ==> final(fields)@[i] == old(fields)@[i],
        final(fields)@[old(fields)@.len() as int].0@ == key@,
        final(fields)@[old(fields)@.len() as int].1 == value,
{
    fields.push((key.to_owned(), value));
}

/// The current time, in the shape the request's date format asks for:
/// epoch seconds as a number, otherwise a nonempty rendered text.
pub open spec fn spec_time_doc(date_format: DateFormat, v: JsonValue) -> bool {
    match date_format {
        DateFormat::Epoch => v matches JsonValue::UInt(_),
        DateFormat::Local => v matches JsonValue::Text(s) && s@.len() > 0,
        DateFormat::Utc => v matches JsonValue::Text(s) && s@.len() > 0,
    }
}

/// Reports the current wall-clock time.
#[derive(Debug, Clone, Copy, PartialEq, Eq, Structural)]
pub struct TimeCollector;

impl TimeCollector {
    pub fn new() -> (r: Self) {
        TimeCollector
    }

    pub fn name(&self) -> (r: &'static str)
        ensures
            r@ == "time"@,
    {
        "time"
    }

    /// Reads the clock and renders it; `date_json` pins the rendering for
    /// any given clock value.
    pub fn collect(&self, cfg: &StatsConfig, _snap: &OsSnapshot) -> (r: Result<
        JsonValue,
        CollectError,
    >)
        ensures
            r matches Ok(v) && spec_time_doc(cfg.date_format, v),
    {
        let now = now_epoch();
        Ok(date_json(cfg, now))
    }
}

/// The uptime document: the seconds since boot and the rendered boot time,
/// each null where the reading is absent.
pub open spec fn spec_uptime_doc(
    date_format: DateFormat,
    uptime: Option<u64>,
    boot_time: Option<u64>,
    v: JsonValue,
) -> bool {
    &&& v matches JsonValue::Object(fields)
    &&& fields@.len() == 2
    &&& fields@[0].0@ == "uptime"@
    &&& match uptime {
        Some(s) => fields@[0].1 == JsonValue::UInt(s),
        None => fields@[0].1 == JsonValue::Null,
    }
    &&& fields@[1].0@ == "boot_time"@
    &&& match boot_time {
        Some(s) => spec_date_json(date_format, s, fields@[1].1),
        None => fields@[1].1 == JsonValue::Null,
    }
}

/// Reports how long the host has been up and when it booted.
#[derive(Debug, Clone, Copy, PartialEq, Eq, Structural)]
pub struct UptimeCollector;

impl UptimeCollector {
    pub fn new() -> (r: Self) {
        UptimeCollector
    }

    pub fn name(&self) -> (r: &'static str)
        ensures
            r@ == "uptime"@,
    {
        "uptime"
    }

    pub fn collect(&self, cfg: &StatsConfig, snap: &OsSnapshot) -> (r: Result<
        JsonValue,
        CollectError,
    >)
        ensures
            r matches Ok(v) && spec_uptime_doc(cfg.date_format, snap.uptime, snap.boot_time, v),
    {
        let mut fields: Vec<(String, JsonValue)> = Vec::new();
        let up = match snap.uptime {
            Some(s) => JsonValue::UInt(s),
            None => JsonValue::Null,
        };
        push_field(&mut fields, "uptime", up);
        let boot = match snap.boot_time {
            Some(s) => date_json(cfg, s),
            None => JsonValue::Null,
        };
        push_field(&mut fields, "boot_time", boot);
        Ok(JsonValue::Object(fields))
    }
}

/// The fraction of memory in use, as a percentage scaled by 100: exact
/// integer arithmetic on the byte counts.  Meaningful only for a nonzero
/// total; a reading with more free than total bytes counts as nothing used.
pub open spec fn spec_pct_hundredths(total: u64, free: u64) -> u64
    recommends
        total > 0,
{
    if free > total {
        0u64
    } else {
        (((total - free) * 10000) / (total as int)) as u64
    }
}

/// The memory document: total and free in the requested size format, and the
/// used percentage — null for a zero total, whose percentage is undefined.
pub open spec fn spec_mem_doc(human_readable: bool, mem: Option<MemorySample>, v: JsonValue) -> bool {
    match mem {
        None => v == JsonValue::Null,
        Some(m) => {
            &&& v matches JsonValue::Object(fields)
            &&& fields@.len() == 3
            &&& fields@[0].0@ == "total"@
            &&& spec_size_json(human_readable, m.total, fields@[0].1)
            &&& fields@[1].0@ == "free"@
            &&& spec_size_json(human_readable, m.free, fields@[1].1)
            &&& fields@[2].0@ == "percentage_used"@
            &&& if m.total == 0 {
                fields@[2].1 == JsonValue::Null
            } else {
                fields@[2].1 == JsonValue::Hundredths(spec_pct_hundredths(m.total, m.free))
            }
        },
    }
}

/// Reports physical memory usage.
#[derive(Debug, Clone, Copy, PartialEq, Eq, Structural)]
pub struct MemoryStatsCollector;

impl MemoryStatsCollector {
    pub fn new() -> (r: Self) {
        MemoryStatsCollector
    }

    pub fn name(&self) -> (r: &'static str)
        ensures
            r@ == "mem_stats"@,
    {
        "mem_stats"
    }

    pub fn collect(&self, cfg: &StatsConfig, snap: &OsSnapshot) -> (r: Result<
        JsonValue,
        CollectError,
    >)
        ensures
            r matches Ok(v) && spec_mem_doc(cfg.human_readable, snap.memory, v),
    {
        match snap.memory {
            None => Ok(JsonValue::Null),
            Some(m) => {
                let mut fields: Vec<(String, JsonValue)> = Vec::new();
                push_field(&mut fields, "total", size_json(cfg, m.total));
                push_field(&mut fields, "free", size_json(cfg, m.free));
                let pct = if m.total == 0 {
                    JsonValue::Null
                } else {
                    let used: u64 = if m.free > m.total {
                        0
                    } else {
                        m.total - m.free
                    };
                    proof {
                        assert((used as int) * 10000 <= 0xffff_ffff_ffff_ffffu64 * 10000)
                            by (nonlinear_arith)
                            requires
                                used <= 0xffff_ffff_ffff_ffffu64,
                        ;
                    }
                    let h128: u128 = (used as u128) * 10000 / (m.total as u128);
                    proof {
                        assert((used as int) * 10000 / (m.total as int) <= 10000)
                            by (nonlinear_arith)
                            requires
                                used <= m.total,
                                m.total > 0,
                        ;
                        assert(h128 == (used as int) * 10000 / (m.total as int));
                        assert(h128 == spec_pct_hundredths(m.total, m.free));
                    }
                    JsonValue::Hundredths(h128 as u64)
                };
                push_field(&mut fields, "percentage_used", pct);
                Ok(JsonValue::Object(fields))
            },
        }
    }
}

/// The CPU load document: the five load fractions of the latest published
/// sample, bit for bit, or a null document before the first sample.
pub open spec fn spec_cpu_load_doc(sample: Option<CpuLoadSample>, v: JsonValue) -> bool {
    match sample {
        None => v == JsonValue::Null,
        Some(c) => {
            &&& v matches JsonValue::Object(fields)
            &&& fields@.len() == 5
            &&& fields@[0].0@ == "user"@ && fields@[0].1 == JsonValue::FloatBits(c.user)
            &&& fields@[1].0@ == "nice"@ && fields@[1].1 == JsonValue::FloatBits(c.nice)
            &&& fields@[2].0@ == "system"@ && fields@[2].1 == JsonValue::FloatBits(c.system)
            &&& fields@[3].0@ == "interrupt"@ && fields@[3].1 == JsonValue::FloatBits(c.interrupt)
            &&& fields@[4].0@ == "idle"@ && fields@[4].1 == JsonValue::FloatBits(c.idle)
        },
    }
}

/// Reports the aggregate CPU load measured by the periodic sampler.
#[derive(Debug, Clone, Copy, PartialEq, Eq, Structural)]
pub struct CpuLoadCollector;

impl CpuLoadCollector {
    pub fn new() -> (r: Self) {
        CpuLoadCollector
    }

    pub fn name(&self) -> (r: &'static str)
        ensures
            r@ == "cpu_load"@,
    {
        "cpu_load"
    }

    pub fn collect(&self, _cfg: &StatsConfig, snap: &OsSnapshot) -> (r: Result<
        JsonValue,
        CollectError,
    >)
        ensures
            r matches Ok(v) && spec_cpu_load_doc(snap.cpu_load, v),
    {
        match snap.cpu_load {
            None => Ok(JsonValue::Null),
            Some(c) => {
                let mut fields: Vec<(String, JsonValue)> = Vec::new();
                push_field(&mut fields, "user", JsonValue::FloatBits(c.user));
                push_field(&mut fields, "nice", JsonValue::FloatBits(c.nice));
                push_field(&mut fields, "system", JsonValue::FloatBits(c.system));
                push_field(&mut fields, "interrupt", JsonValue::FloatBits(c.interrupt));
                push_field(&mut fields, "idle", JsonValue::FloatBits(c.idle));
                Ok(JsonValue::Object(fields))
            },
        }
    }
}

/// The load-average document: the three averages, bit for bit, or a null
/// document where the query failed.
pub open spec fn spec_cpu_avg_doc(sample: Option<LoadAvgSample>, v: JsonValue) -> bool {
    match sample {
        None => v == JsonValue::Null,
        Some(l) => {
            &&& v matches JsonValue::Object(fields)
            &&& fields@.len() == 3
            &&& fields@[0].0@ == "one"@ && fields@[0].1 == JsonValue::FloatBits(l.one)
            &&& fields@[1].0@ == "five"@ && fields@[1].1 == JsonValue::FloatBits(l.five)
            &&& fields@[2].0@ == "fifteen"@ && fields@[2].1 == JsonValue::FloatBits(l.fifteen)
        },
    }
}

/// Reports the system load averages.
#[derive(Debug, Clone, Copy, PartialEq, Eq, Structural)]
pub struct CpuLoadAvgCollector;

impl CpuLoadAvgCollector {
    pub fn new() -> (r: Self) {
        CpuLoadAvgCollector
    }

    pub fn name(&self) -> (r: &'static str)
        ensures
            r@ == "cpu_avg"@,
    {
        "cpu_avg"
    }

    pub fn collect(&self, _cfg: &StatsConfig, snap: &OsSnapshot) -> (r: Result<
        JsonValue,
        CollectError,
    >)
        ensures
            r matches Ok(v) && spec_cpu_avg_doc(snap.load_average, v),
    {
        match snap.load_average {
            None => Ok(JsonValue::Null),
            Some(l) => {
                let mut fields: Vec<(String, JsonValue)> = Vec::new();
                push_field(&mut fields, "one", JsonValue::FloatBits(l.one));
                push_field(&mut fields, "five", JsonValue::FloatBits(l.five));
                push_field(&mut fields, "fifteen", JsonValue::FloatBits(l.fifteen));
                Ok(JsonValue::Object(fields))
            },
        }
    }
}

/// One interface's entry in the network document: its name, and its counters
/// — null where the per-interface query failed, byte counts in the requested
/// size format.
pub open spec fn spec_net_entry(human_readable: bool, n: NetworkSample, v: JsonValue) -> bool {
    &&& v matches JsonValue::Object(fields)
    &&& fields@.len() == 2
    &&& fields@[0].0@ == "name"@
    &&& fields@[0].1 matches JsonValue::Text(t) && t@ == n.name@
    &&& fields@[1].0@ == "stats"@
    &&& match n.stats {
        None => fields@[1].1 == JsonValue::Null,
        Some(s) => {
            &&& fields@[1].1 matches JsonValue::Object(sf)
            &&& sf@.len() == 6
            &&& sf@[0].0@ == "rx_bytes"@ && spec_size_json(human_readable, s.rx_bytes, sf@[0].1)
            &&& sf@[1].0@ == "tx_bytes"@ && spec_size_json(human_readable, s.tx_bytes, sf@[1].1)
            &&& sf@[2].0@ == "rx_packets"@ && sf@[2].1 == JsonValue::UInt(s.rx_packets)
            &&& sf@[3].0@ == "tx_packets"@ && sf@[3].1 == JsonValue::UInt(s.tx_packets)
            &&& sf@[4].0@ == "rx_errors"@ && sf@[4].1 == JsonValue::UInt(s.rx_errors)
            &&& sf@[5].0@ == "tx_errors"@ && sf@[5].1 == JsonValue::UInt(s.tx_errors)
        },
    }
}

/// The network document: one entry per interface, in the order given, or a
/// null document where the interface list could not be read.
pub open spec fn spec_net_doc(
    human_readable: bool,
    networks: Option<Vec<NetworkSample>>,
    v: JsonValue,
) -> bool {
    match networks {
        None => v == JsonValue::Null,
        Some(nets) => {
            &&& v matches JsonValue::List(items)
            &&& items@.len() == nets@.len()
            &&& forall|i: int|
                0 <= i < nets@.len() ==> spec_net_entry(human_readable, nets@[i], #[trigger] items@[i])
        },
    }
}

/// Reports per-interface network traffic counters.
#[derive(Debug, Clone, Copy, PartialEq, Eq, Structural)]
pub struct NetworkStatsCollector;

impl NetworkStatsCollector {
    pub fn new() -> (r: Self) {
        NetworkStatsCollector
    }

    pub fn name(&self) -> (r: &'static str)
        ensures
            r@ == "net_stats"@,
    {
        "net_stats"
    }

    pub fn collect(&self, cfg: &StatsConfig, snap: &OsSnapshot) -> (r: Result<
        JsonValue,
        CollectError,
    >)
        ensures
            r matches Ok(v) && spec_net_doc(cfg.human_readable, snap.networks, v),
    {
        match &snap.networks {
            None => Ok(JsonValue::Null),
            Some(nets) => {
                let n = nets.len();
                let mut items: Vec<JsonValue> = Vec::new();
                let mut i: usize = 0;
                while i < n
                    invariant
                        n == nets@.len(),
                        i <= n,
                        items@.len() == i,
                        forall|j: int|
                            0 <= j < i ==> spec_net_entry(
                                cfg.human_readable,
                                nets@[j],
                                #[trigger] items@[j],
                            ),
                    decreases n - i,
                {
                    let net = &nets[i];
                    let mut fields: Vec<(String, JsonValue)> = Vec::new();
                    push_field(&mut fields, "name", JsonValue::Text(net.name.clone()));
                    let stats = match net.stats {
                        None => JsonValue::Null,
                        Some(s) => {
                            let mut sf: Vec<(String, JsonValue)> = Vec::new();
                            push_field(&mut sf, "rx_bytes", size_json(cfg, s.rx_bytes));
                            push_field(&mut sf, "tx_bytes", size_json(cfg, s.tx_bytes));
                            push_field(&mut sf, "rx_packets", JsonValue::UInt(s.rx_packets));
                            push_field(&mut sf, "tx_packets", JsonValue::UInt(s.tx_packets));
                            push_field(&mut sf, "rx_errors", JsonValue::UInt(s.rx_errors));
                            push_field(&mut sf, "tx_errors", JsonValue::UInt(s.tx_errors));
                            JsonValue::Object(sf)
                        },
                    };
                    push_field(&mut fields, "stats", stats);
                    items.push(JsonValue::Object(fields));
                    i += 1;
                }
                Ok(JsonValue::List(items))
            },
        }
    }
}

/// The socket document: the five counts, or the empty document when the
/// collector is switched off, or a null document where the query failed.
pub open spec fn spec_sock_doc(disabled: bool, s: Option<SocketStatsSample>, v: JsonValue) -> bool {
    if disabled {
        v matches JsonValue::Object(fields) && fields@.len() == 0
    } else {
        match s {
            None => v == JsonValue::Null,
            Some(c) => {
                &&& v matches JsonValue::Object(fields)
                &&& fields@.len() == 5
                &&& fields@[0].0@ == "tcp_socks"@ && fields@[0].1 == JsonValue::UInt(
                    c.tcp_sockets_in_use,
                )
                &&& fields@[1].0@ == "tcp_socks_orphaned"@ && fields@[1].1 == JsonValue::UInt(
                    c.tcp_sockets_orphaned,
                )
                &&& fields@[2].0@ == "udp_socks"@ && fields@[2].1 == JsonValue::UInt(
                    c.udp_sockets_in_use,
                )
                &&& fields@[3].0@ == "tcp6_socks"@ && fields@[3].1 == JsonValue::UInt(
                    c.tcp6_sockets_in_use,
                )
                &&& fields@[4].0@ == "udp6_socks"@ && fields@[4].1 == JsonValue::UInt(
                    c.udp6_sockets_in_use,
                )
            },
        }
    }
}

/// Reports socket counts; the one collector honouring the standardized
/// `disabled` flag.
#[derive(Debug, Clone, Copy, PartialEq, Eq, Structural)]
pub struct SocketStatsCollector;

impl SocketStatsCollector {
    pub fn new() -> (r: Self) {
        SocketStatsCollector
    }

    pub fn name(&self) -> (r: &'static str)
        ensures
            r@ == "sock_stats"@,
    {
        "sock_stats"
    }

    pub fn collect(&self, cfg: &StatsConfig, snap: &OsSnapshot) -> (r: Result<
        JsonValue,
        CollectError,
    >)
        ensures
            r matches Ok(v) && spec_sock_doc(
                spec_plugin_disabled(cfg.plugin_config@, "sock_stats"@),
                snap.sockets,
                v,
            ),
    {
        if plugin_disabled(&cfg.plugin_config, "sock_stats") {
            return Ok(JsonValue::empty_object());
        }
        match snap.sockets {
            None => Ok(JsonValue::Null),
            Some(c) => {
                let mut fields: Vec<(String, JsonValue)> = Vec::new();
                push_field(&mut fields, "tcp_socks", JsonValue::UInt(c.tcp_sockets_in_use));
                push_field(
                    &mut fields,
                    "tcp_socks_orphaned",
                    JsonValue::UInt(c.tcp_sockets_orphaned),
                );
                push_field(&mut fields, "udp_socks", JsonValue::UInt(c.udp_sockets_in_use));
                push_field(&mut fields, "tcp6_socks", JsonValue::UInt(c.tcp6_sockets_in_use));
                push_field(&mut fields, "udp6_socks", JsonValue::UInt(c.udp6_sockets_in_use));
                Ok(JsonValue::Object(fields))
            },
        }
    }
}

/// One mount's entry in the filesystem document, byte counts in the
/// requested size format.
pub open spec fn spec_fs_entry(human_readable: bool, m: MountSample, v: JsonValue) -> bool {
    &&& v matches JsonValue::Object(fields)
    &&& fields@.len() == 5
    &&& fields@[0].0@ == "name"@
    &&& fields@[0].1 matches JsonValue::Text(t) && t@ == m.fs_mounted_from@
    &&& fields@[1].0@ == "type"@
    &&& fields@[1].1 matches JsonValue::Text(t) && t@ == m.fs_type@
    &&& fields@[2].0@ == "free"@ && spec_size_json(human_readable, m.free, fields@[2].1)
    &&& fields@[3].0@ == "avail"@ && spec_size_json(human_readable, m.avail, fields@[3].1)
    &&& fields@[4].0@ == "total"@ && spec_size_json(human_readable, m.total, fields@[4].1)
}

/// Whether a mount is kept in the filesystem document.
pub open spec fn spec_mount_kept(m: MountSample) -> bool {
    m.total != 0
}

/// The filesystem document: one entry per mount with a nonzero total, in the
/// order given, or a null document where the mount list could not be read.
pub open spec fn spec_fs_doc(
    human_readable: bool,
    mounts: Option<Vec<MountSample>>,
    v: JsonValue,
) -> bool {
    match mounts {
        None => v == JsonValue::Null,
        Some(ms) => {
            let kept = ms@.filter(|m: MountSample| spec_mount_kept(m));
            &&& v matches JsonValue::List(items)
            &&& items@.len() == kept.len()
            &&& forall|i: int|
                0 <= i < kept.len() ==> spec_fs_entry(human_readable, kept[i], #[trigger] items@[i])
        },
    }
}

proof fn lemma_filter_push(s: Seq<MountSample>, x: MountSample)
    ensures
        spec_mount_kept(x) ==> (s.push(x)).filter(|m: MountSample| spec_mount_kept(m)) == s.filter(
            |m: MountSample| spec_mount_kept(m),
        ).push(x),
        !spec_mount_kept(x) ==> (s.push(x)).filter(|m: MountSample| spec_mount_kept(m)) == s.filter(
            |m: MountSample| spec_mount_kept(m),
        ),
{
    reveal(Seq::filter);
    assert((s.push(x)).drop_last() =~= s);
    assert((s.push(x)).last() == x);
}

/// Reports usage of the mounted filesystems, leaving out pseudo-filesystems
/// of zero size.
#[derive(Debug, Clone, Copy, PartialEq, Eq, Structural)]
pub struct FilesystemStatsCollector;

impl FilesystemStatsCollector {
    pub fn new() -> (r: Self) {
        FilesystemStatsCollector
    }

    pub fn name(&self) -> (r: &'static str)
        ensures
            r@ == "fs_stats"@,
    {
        "fs_stats"
    }

    pub fn collect(&self, cfg: &StatsConfig, snap: &OsSnapshot) -> (r: Result<
        JsonValue,
        CollectError,
    >)
        ensures
            r matches Ok(v) && spec_fs_doc(cfg.human_readable, snap.mounts, v),
    {
        match &snap.mounts {
            None => Ok(JsonValue::Null),
            Some(ms) => {
                let n = ms.len();
                let mut items: Vec<JsonValue> = Vec::new();
                let mut i: usize = 0;
                while i < n
                    invariant
                        n == ms@.len(),
                        i <= n,
                        ({
                            let kept = ms@.subrange(0, i as int).filter(
                                |m: MountSample| spec_mount_kept(m),
                            );
                            &&& items@.len() == kept.len()
                            &&& forall|j: int|
                                0 <= j < kept.len() ==> spec_fs_entry(
                                    cfg.human_readable,
                                    kept[j],
                                    #[trigger] items@[j],
                                )
                        }),
                    decreases n - i,
                {
                    let mount = &ms[i];
                    proof {
                        assert(ms@.subrange(0, i + 1 as int) =~= ms@.subrange(0, i as int).push(
                            ms@[i as int],
                        ));
                        lemma_filter_push(ms@.subrange(0, i as int), ms@[i as int]);
                    }
                    if mount.total != 0 {
                        let mut fields: Vec<(String, JsonValue)> = Vec::new();
                        push_field(&mut fields, "name", JsonValue::Text(mount.fs_mounted_from.clone()));
                        push_field(&mut fields, "type", JsonValue::Text(mount.fs_type.clone()));
                        push_field(&mut fields, "free", size_json(cfg, mount.free));
                        push_field(&mut fields, "avail", size_json(cfg, mount.avail));
                        push_field(&mut fields, "total", size_json(cfg, mount.total));
                        items.push(JsonValue::Object(fields));
                    }
                    i += 1;
                }
                proof {
                    assert(ms@.subrange(0, n as int) =~= ms@);
                }
                Ok(JsonValue::List(items))
            },
        }
    }
}

/// A minimal example collector: a fixed text document.
#[derive(Debug, Clone, Copy, PartialEq, Eq, Structural)]
pub struct ExampleCollector;

impl ExampleCollector {
    pub fn new() -> (r: Self) {
        ExampleCollector
    }

    pub fn name(&self) -> (r: &'static str)
        ensures
            r@ == "works"@,
    {
        "works"
    }

    pub fn collect(&self, _cfg: &StatsConfig, _snap: &OsSnapshot) -> (r: Result<
        JsonValue,
        CollectError,
    >)
        ensures
            r matches Ok(v) && v matches JsonValue::Text(t) && t@ == "test"@,
    {
        Ok(JsonValue::Text("test".to_owned()))
    }
}

/// A plugin that mirrors the time collector under its own name.
#[derive(Debug, Clone, Copy, PartialEq, Eq, Structural)]
pub struct TestPlugin;

impl TestPlugin {
    pub fn new() -> (r: Self) {
        TestPlugin
    }

    pub fn name(&self) -> (r: &'static str)
        ensures
            r@ == "test"@,
    {
        "test"
    }

    pub fn collect(&self, cfg: &StatsConfig, _snap: &OsSnapshot) -> (r: Result<
        JsonValue,
        CollectError,
    >)
        ensures
            r matches Ok(v) && spec_time_doc(cfg.date_format, v),
    {
        let now = now_epoch();
        Ok(date_json(cfg, now))
    }
}

} // verus!
