use http_sysstat::json::JsonValue;
use http_sysstat::plugin::{
    CpuLoadAvgCollector, CpuLoadCollector, CpuLoadSample, ExampleCollector,
    FilesystemStatsCollector, LoadAvgSample, MemoryStatsCollector, MemorySample, MountSample,
    NetworkSample, NetworkStatsCollector, NetworkStatsSample, OsSnapshot, SocketStatsCollector,
    SocketStatsSample, TestPlugin, TimeCollector, UptimeCollector,
};
use http_sysstat::stats_collector::{ConfigValue, DateFormat, StatsConfig};

fn cfg_with(date_format: DateFormat, human_readable: bool) -> StatsConfig {
    StatsConfig { date_format, human_readable, query_other: Vec::new(), plugin_config: Vec::new() }
}

fn empty_snapshot() -> OsSnapshot {
    OsSnapshot {
        uptime: None,
        boot_time: None,
        memory: None,
        cpu_load: None,
        load_average: None,
        networks: None,
        sockets: None,
        mounts: None,
    }
}

fn fields_of(v: JsonValue) -> Vec<(String, JsonValue)> {
    match v {
        JsonValue::Object(fields) => fields,
        other => panic!("expected an object, got {:?}", other),
    }
}

#[test]
fn time_collector_epoch_is_integer() {
    let cfg = cfg_with(DateFormat::Epoch, false);
    let v = TimeCollector::new().collect(&cfg, &empty_snapshot()).unwrap();
    assert!(matches!(v, JsonValue::UInt(_)));
}

#[test]
fn time_collector_local_and_utc_are_nonempty_text() {
    for df in [DateFormat::Local, DateFormat::Utc] {
        let cfg = cfg_with(df, false);
        match TimeCollector::new().collect(&cfg, &empty_snapshot()).unwrap() {
            JsonValue::Text(s) => assert!(!s.is_empty()),
            other => panic!("expected text, got {:?}", other),
        }
    }
}

#[test]
fn uptime_collector_reports_both_fields() {
    let cfg = cfg_with(DateFormat::Epoch, false);
    let mut snap = empty_snapshot();
    snap.uptime = Some(3600);
    snap.boot_time = Some(1431648000);
    let fields = fields_of(UptimeCollector::new().collect(&cfg, &snap).unwrap());
    assert_eq!(fields.len(), 2);
    assert_eq!(fields[0].0, "uptime");
    assert_eq!(fields[0].1, JsonValue::UInt(3600));
    assert_eq!(fields[1].0, "boot_time");
    assert_eq!(fields[1].1, JsonValue::UInt(1431648000));
}

#[test]
fn uptime_collector_failed_readings_become_null() {
    let cfg = cfg_with(DateFormat::Epoch, false);
    let fields = fields_of(UptimeCollector::new().collect(&cfg, &empty_snapshot()).unwrap());
    assert_eq!(fields[0].1, JsonValue::Null);
    assert_eq!(fields[1].1, JsonValue::Null);
}

#[test]
fn memory_collector_exact_document() {
    let cfg = cfg_with(DateFormat::Epoch, false);
    let mut snap = empty_snapshot();
    snap.memory = Some(MemorySample { total: 100, free: 25 });
    let fields = fields_of(MemoryStatsCollector::new().collect(&cfg, &snap).unwrap());
    assert_eq!(fields.len(), 3);
    assert_eq!(fields[0], (String::from("total"), JsonValue::UInt(100)));
    assert_eq!(fields[1], (String::from("free"), JsonValue::UInt(25)));
    // 75 of 100 bytes used: 75%, scaled by 100.
    assert_eq!(fields[2], (String::from("percentage_used"), JsonValue::Hundredths(7500)));
}

#[test]
fn memory_collector_human_readable_sizes() {
    let cfg = cfg_with(DateFormat::Epoch, true);
    let mut snap = empty_snapshot();
    snap.memory = Some(MemorySample { total: 3221225472, free: 1073741824 });
    let fields = fields_of(MemoryStatsCollector::new().collect(&cfg, &snap).unwrap());
    assert_eq!(fields[0].1, JsonValue::Text(String::from("3072MiB")));
    assert_eq!(fields[1].1, JsonValue::Text(String::from("1024MiB")));
    // Two thirds used: 66.66%, rounded down at the fourth digit.
    assert_eq!(fields[2].1, JsonValue::Hundredths(6666));
}

#[test]
fn memory_collector_zero_total_gives_null_percentage() {
    let cfg = cfg_with(DateFormat::Epoch, false);
    let mut snap = empty_snapshot();
    snap.memory = Some(MemorySample { total: 0, free: 0 });
    let fields = fields_of(MemoryStatsCollector::new().collect(&cfg, &snap).unwrap());
    assert_eq!(fields[2].1, JsonValue::Null);
}

#[test]
fn memory_collector_failed_query_gives_null_document() {
    let cfg = cfg_with(DateFormat::Epoch, false);
    let v = MemoryStatsCollector::new().collect(&cfg, &empty_snapshot()).unwrap();
    assert_eq!(v, JsonValue::Null);
}

#[test]
fn cpu_load_collector_before_first_sample_is_null() {
    let cfg = cfg_with(DateFormat::Epoch, false);
    let v = CpuLoadCollector::new().collect(&cfg, &empty_snapshot()).unwrap();
    assert_eq!(v, JsonValue::Null);
}

#[test]
fn cpu_load_collector_carries_bits_through() {
    let cfg = cfg_with(DateFormat::Epoch, false);
    let mut snap = empty_snapshot();
    snap.cpu_load = Some(CpuLoadSample {
        user: 0.25f32.to_bits(),
        nice: 0.0f32.to_bits(),
        system: 0.125f32.to_bits(),
        interrupt: 0.0f32.to_bits(),
        idle: 0.625f32.to_bits(),
    });
    let fields = fields_of(CpuLoadCollector::new().collect(&cfg, &snap).unwrap());
    assert_eq!(fields.len(), 5);
    let names: Vec<&str> = fields.iter().map(|f| f.0.as_str()).collect();
    assert_eq!(names, ["user", "nice", "system", "interrupt", "idle"]);
    match fields[0].1 {
        JsonValue::FloatBits(bits) => assert_eq!(f32::from_bits(bits), 0.25),
        ref other => panic!("expected float bits, got {:?}", other),
    }
    match fields[4].1 {
        JsonValue::FloatBits(bits) => assert_eq!(f32::from_bits(bits), 0.625),
        ref other => panic!("expected float bits, got {:?}", other),
    }
}

#[test]
fn cpu_avg_collector_document() {
    let cfg = cfg_with(DateFormat::Epoch, false);
    let mut snap = empty_snapshot();
    snap.load_average = Some(LoadAvgSample {
        one: 1.5f32.to_bits(),
        five: 0.75f32.to_bits(),
        fifteen: 0.5f32.to_bits(),
    });
    let fields = fields_of(CpuLoadAvgCollector::new().collect(&cfg, &snap).unwrap());
    let names: Vec<&str> = fields.iter().map(|f| f.0.as_str()).collect();
    assert_eq!(names, ["one", "five", "fifteen"]);
    assert_eq!(fields[0].1, JsonValue::FloatBits(1.5f32.to_bits()));
    assert_eq!(
        CpuLoadAvgCollector::new().collect(&cfg, &empty_snapshot()).unwrap(),
        JsonValue::Null
    );
}

#[test]
fn network_collector_entries_follow_input_order() {
    let cfg = cfg_with(DateFormat::Epoch, false);
    let mut snap = empty_snapshot();
    snap.networks = Some(vec![
        NetworkSample {
            name: String::from("lo"),
            stats: Some(NetworkStatsSample {
                rx_bytes: 10,
                tx_bytes: 20,
                rx_packets: 1,
                tx_packets: 2,
                rx_errors: 0,
                tx_errors: 0,
            }),
        },
        NetworkSample { name: String::from("eth0"), stats: None },
    ]);
    let items = match NetworkStatsCollector::new().collect(&cfg, &snap).unwrap() {
        JsonValue::List(items) => items,
        other => panic!("expected a list, got {:?}", other),
    };
    assert_eq!(items.len(), 2);
    let first = fields_of(items.into_iter().next().unwrap());
    assert_eq!(first[0], (String::from("name"), JsonValue::Text(String::from("lo"))));
    let stats = fields_of(first.into_iter().nth(1).unwrap().1);
    assert_eq!(stats.len(), 6);
    assert_eq!(stats[0], (String::from("rx_bytes"), JsonValue::UInt(10)));
    assert_eq!(stats[3], (String::from("tx_packets"), JsonValue::UInt(2)));
}

#[test]
fn network_collector_failed_interface_query_is_null() {
    let cfg = cfg_with(DateFormat::Epoch, false);
    let mut snap = empty_snapshot();
    snap.networks = Some(vec![NetworkSample { name: String::from("eth0"), stats: None }]);
    let items = match NetworkStatsCollector::new().collect(&cfg, &snap).unwrap() {
        JsonValue::List(items) => items,
        other => panic!("expected a list, got {:?}", other),
    };
    let entry = fields_of(items.into_iter().next().unwrap());
    assert_eq!(entry[1], (String::from("stats"), JsonValue::Null));
}

fn sock_snapshot() -> OsSnapshot {
    let mut snap = empty_snapshot();
    snap.sockets = Some(SocketStatsSample {
        tcp_sockets_in_use: 11,
        tcp_sockets_orphaned: 1,
        udp_sockets_in_use: 5,
        tcp6_sockets_in_use: 3,
        udp6_sockets_in_use: 2,
    });
    snap
}

#[test]
fn socket_collector_full_document() {
    let cfg = cfg_with(DateFormat::Epoch, false);
    let fields = fields_of(SocketStatsCollector::new().collect(&cfg, &sock_snapshot()).unwrap());
    assert_eq!(fields.len(), 5);
    assert_eq!(fields[0], (String::from("tcp_socks"), JsonValue::UInt(11)));
    assert_eq!(fields[1], (String::from("tcp_socks_orphaned"), JsonValue::UInt(1)));
    assert_eq!(fields[2], (String::from("udp_socks"), JsonValue::UInt(5)));
    assert_eq!(fields[3], (String::from("tcp6_socks"), JsonValue::UInt(3)));
    assert_eq!(fields[4], (String::from("udp6_socks"), JsonValue::UInt(2)));
}

#[test]
fn socket_collector_disabled_by_plugin_config() {
    let mut cfg = cfg_with(DateFormat::Epoch, false);
    cfg.plugin_config = vec![(
        String::from("sock_stats"),
        ConfigValue::Table(vec![(String::from("disabled"), ConfigValue::Bool(true))]),
    )];
    let v = SocketStatsCollector::new().collect(&cfg, &sock_snapshot()).unwrap();
    assert_eq!(v, JsonValue::Object(Vec::new()));
}

#[test]
fn socket_collector_absent_config_key_reports_fully() {
    let mut cfg = cfg_with(DateFormat::Epoch, false);
    cfg.plugin_config =
        vec![(String::from("net_stats"), ConfigValue::Table(Vec::new()))];
    let fields = fields_of(SocketStatsCollector::new().collect(&cfg, &sock_snapshot()).unwrap());
    assert_eq!(fields.len(), 5);
}

fn mount(name: &str, total: u64) -> MountSample {
    MountSample {
        fs_mounted_from: String::from(name),
        fs_type: String::from("ext4"),
        free: total / 2,
        avail: total / 4,
        total,
    }
}

#[test]
fn filesystem_collector_filters_zero_totals() {
    let cfg = cfg_with(DateFormat::Epoch, false);
    let mut snap = empty_snapshot();
    snap.mounts = Some(vec![mount("/dev/sda1", 1000), mount("proc", 0), mount("/dev/sdb1", 400)]);
    let items = match FilesystemStatsCollector::new().collect(&cfg, &snap).unwrap() {
        JsonValue::List(items) => items,
        other => panic!("expected a list, got {:?}", other),
    };
    assert_eq!(items.len(), 2);
    let mut names = Vec::new();
    for item in items {
        let fields = fields_of(item);
        assert_eq!(fields.len(), 5);
        match &fields[0].1 {
            JsonValue::Text(t) => names.push(t.clone()),
            other => panic!("expected text, got {:?}", other),
        }
        assert_eq!(fields[1].1, JsonValue::Text(String::from("ext4")));
    }
    assert_eq!(names, ["/dev/sda1", "/dev/sdb1"]);
}

#[test]
fn filesystem_collector_exact_entry() {
    let cfg = cfg_with(DateFormat::Epoch, false);
    let mut snap = empty_snapshot();
    snap.mounts = Some(vec![mount("/", 1000)]);
    let items = match FilesystemStatsCollector::new().collect(&cfg, &snap).unwrap() {
        JsonValue::List(items) => items,
        other => panic!("expected a list, got {:?}", other),
    };
    let fields = fields_of(items.into_iter().next().unwrap());
    assert_eq!(fields[2], (String::from("free"), JsonValue::UInt(500)));
    assert_eq!(fields[3], (String::from("avail"), JsonValue::UInt(250)));
    assert_eq!(fields[4], (String::from("total"), JsonValue::UInt(1000)));
}

#[test]
fn example_collector_fixed_document() {
    let cfg = cfg_with(DateFormat::Epoch, false);
    let v = ExampleCollector::new().collect(&cfg, &empty_snapshot()).unwrap();
    assert_eq!(v, JsonValue::Text(String::from("test")));
}

#[test]
fn test_plugin_mirrors_time() {
    let cfg = cfg_with(DateFormat::Epoch, false);
    let v = TestPlugin::new().collect(&cfg, &empty_snapshot()).unwrap();
    assert!(matches!(v, JsonValue::UInt(_)));
}
