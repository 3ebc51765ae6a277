use http_sysstat::config::Config;
use http_sysstat::stats_collector::{
    build_config, parse_date_format, plugin_disabled, ConfigValue, DateFormat,
};

#[test]
fn parse_date_format_known_values() {
    assert_eq!(parse_date_format("epoch"), Some(DateFormat::Epoch));
    assert_eq!(parse_date_format("local"), Some(DateFormat::Local));
    assert_eq!(parse_date_format("utc"), Some(DateFormat::Utc));
}

#[test]
fn parse_date_format_rejects_unknown() {
    assert_eq!(parse_date_format(""), None);
    assert_eq!(parse_date_format("Epoch"), None);
    assert_eq!(parse_date_format("iso8601"), None);
}

#[test]
fn build_config_defaults() {
    let cfg = build_config(Vec::new(), Vec::new());
    assert_eq!(cfg.date_format, DateFormat::Epoch);
    assert!(!cfg.human_readable);
    assert!(cfg.query_other.is_empty());
    assert!(cfg.plugin_config.is_empty());
}

#[test]
fn build_config_reads_parameters() {
    let params = vec![
        (String::from("date_format"), String::from("utc")),
        (String::from("human_readable"), String::from("true")),
        (String::from("extra"), String::from("kept")),
    ];
    let cfg = build_config(params, Vec::new());
    assert_eq!(cfg.date_format, DateFormat::Utc);
    assert!(cfg.human_readable);
    // All parameters stay available verbatim.
    assert_eq!(cfg.query_other.len(), 3);
    assert_eq!(cfg.query_other[2].1, "kept");
}

#[test]
fn build_config_malformed_values_fall_back() {
    let params = vec![
        (String::from("date_format"), String::from("sidereal")),
        (String::from("human_readable"), String::from("yes")),
    ];
    let cfg = build_config(params, Vec::new());
    assert_eq!(cfg.date_format, DateFormat::Epoch);
    assert!(!cfg.human_readable);
}

#[test]
fn build_config_local_format() {
    let params = vec![(String::from("date_format"), String::from("local"))];
    let cfg = build_config(params, Vec::new());
    assert_eq!(cfg.date_format, DateFormat::Local);
}

fn disabled_entry(flag: bool) -> (String, ConfigValue) {
    (
        String::from("sock_stats"),
        ConfigValue::Table(vec![(String::from("disabled"), ConfigValue::Bool(flag))]),
    )
}

#[test]
fn plugin_disabled_reads_flag() {
    let pc = vec![disabled_entry(true)];
    assert!(plugin_disabled(&pc, "sock_stats"));
    let pc = vec![disabled_entry(false)];
    assert!(!plugin_disabled(&pc, "sock_stats"));
}

#[test]
fn plugin_disabled_absent_key_means_enabled() {
    assert!(!plugin_disabled(&Vec::new(), "sock_stats"));
    let pc = vec![disabled_entry(true)];
    assert!(!plugin_disabled(&pc, "net_stats"));
}

#[test]
fn plugin_disabled_shape_mismatch_means_enabled() {
    // A non-table entry under the collector's key.
    let pc = vec![(String::from("sock_stats"), ConfigValue::Bool(true))];
    assert!(!plugin_disabled(&pc, "sock_stats"));
    // A table whose `disabled` is not a boolean.
    let pc = vec![(
        String::from("sock_stats"),
        ConfigValue::Table(vec![(String::from("disabled"), ConfigValue::Number(1))]),
    )];
    assert!(!plugin_disabled(&pc, "sock_stats"));
    // A table with no `disabled` at all.
    let pc = vec![(
        String::from("sock_stats"),
        ConfigValue::Table(vec![(String::from("other"), ConfigValue::Null)]),
    )];
    assert!(!plugin_disabled(&pc, "sock_stats"));
}

#[test]
fn default_config_addr() {
    let cfg = Config::default();
    assert_eq!(cfg.addr, "127.0.0.1:8080");
    assert!(cfg.plugin_config.is_empty());
}
