use tsdb_catalog::{
    CacheConfig, Config, DatabaseOptions, DatabaseSchema, Duration, DurationUnit, EnvOverrides,
    LogConfig, Precision, QueryConfig, SecurityConfig, StorageConfig, WalConfig,
};
use tsdb_catalog::{ColumnType, TableFiled, TableSchema, ValueType};

#[test]
fn duration_parse_days() {
    assert_eq!(
        Duration::new("'10d'"),
        Some(Duration { time_num: 10, unit: DurationUnit::Day })
    );
}

#[test]
fn duration_parse_hours_case_insensitive() {
    assert_eq!(
        Duration::new("'3H'"),
        Some(Duration { time_num: 3, unit: DurationUnit::Hour })
    );
    assert_eq!(
        Duration::new("'3h'"),
        Some(Duration { time_num: 3, unit: DurationUnit::Hour })
    );
}

#[test]
fn duration_parse_minutes() {
    assert_eq!(
        Duration::new("'45m'"),
        Some(Duration { time_num: 45, unit: DurationUnit::Minutes })
    );
    assert_eq!(
        Duration::new("'45M'"),
        Some(Duration { time_num: 45, unit: DurationUnit::Minutes })
    );
}

#[test]
fn duration_parse_rejections() {
    assert_eq!(Duration::new("bad"), None);
    assert_eq!(Duration::new("'1'"), None);
    assert_eq!(Duration::new(""), None);
    assert_eq!(Duration::new("'10x'"), None);
    assert_eq!(Duration::new("'zzd'"), None);
    assert_eq!(Duration::new("''d'"), None);
}

#[test]
fn duration_delimiters_are_stripped_not_validated() {
    // The first and the last character are stripped as delimiters; their
    // values are not checked.
    assert_eq!(
        Duration::new("x10dy"),
        Some(Duration { time_num: 10, unit: DurationUnit::Day })
    );
}

#[test]
fn duration_parse_plus_sign_and_overflow() {
    assert_eq!(
        Duration::new("'+10d'"),
        Some(Duration { time_num: 10, unit: DurationUnit::Day })
    );
    assert_eq!(
        Duration::new("'18446744073709551615d'"),
        Some(Duration { time_num: u64::MAX, unit: DurationUnit::Day })
    );
    assert_eq!(Duration::new("'18446744073709551616d'"), None);
}

#[test]
fn precision_parse() {
    assert_eq!(Precision::new("'ns'"), Some(Precision::NS));
    assert_eq!(Precision::new("'NS'"), Some(Precision::NS));
    assert_eq!(Precision::new("'nS'"), Some(Precision::NS));
    assert_eq!(Precision::new("'us'"), Some(Precision::US));
    assert_eq!(Precision::new("'MS'"), Some(Precision::MS));
    assert_eq!(Precision::new("'xx'"), None);
    assert_eq!(Precision::new("ns"), None);
    assert_eq!(Precision::new(""), None);
}

#[test]
fn database_options_defaults() {
    let o = DatabaseOptions::default();
    assert_eq!(o.ttl, Duration { time_num: 365, unit: DurationUnit::Day });
    assert_eq!(o.shard_num, 1);
    assert_eq!(o.vnode_duration, Duration { time_num: 365, unit: DurationUnit::Day });
    assert_eq!(o.replica, 1);
    assert_eq!(o.precision, Precision::NS);
}

#[test]
fn database_options_from_config_falls_back() {
    let o = DatabaseOptions::from_config("'30d'", 4, "nonsense", 2, "'us'");
    assert_eq!(o.ttl, Duration { time_num: 30, unit: DurationUnit::Day });
    assert_eq!(o.shard_num, 4);
    assert_eq!(o.vnode_duration, Duration { time_num: 365, unit: DurationUnit::Day });
    assert_eq!(o.replica, 2);
    assert_eq!(o.precision, Precision::US);
}

#[test]
fn database_options_from_config_coerces_zero() {
    let o = DatabaseOptions::from_config("bad", 0, "bad", 0, "bad");
    assert_eq!(o, DatabaseOptions::default());
}

#[test]
fn database_schema_new_has_defaults() {
    let db = DatabaseSchema::new("metrics");
    assert_eq!(db.name, "metrics");
    assert_eq!(db.config, DatabaseOptions::default());
    assert!(db.tables.is_empty());
}

fn table_named(name: &str) -> TableSchema {
    TableSchema::new(
        "metrics".to_string(),
        name.to_string(),
        vec![
            TableFiled::new(0, "time".to_string(), ColumnType::Time, 0),
            TableFiled::new(1, "temp".to_string(), ColumnType::Field(ValueType::Float), 0),
        ],
    )
    .unwrap()
}

#[test]
fn database_schema_table_lookup() {
    let mut db = DatabaseSchema::new("metrics");
    assert!(db.add_table(table_named("cpu")));
    assert!(db.add_table(table_named("mem")));
    assert!(!db.add_table(table_named("cpu")));

    assert!(db.table_exist("cpu"));
    assert!(db.table_exist("mem"));
    assert!(!db.table_exist("disk"));

    let t = db.table("cpu").unwrap();
    assert_eq!(t.name, "cpu");
    assert!(db.table("disk").is_none());

    assert_eq!(db.table_names(), vec!["cpu".to_string(), "mem".to_string()]);
}

fn base_config() -> Config {
    Config {
        query: QueryConfig {
            max_server_connections: 10240,
            query_sql_limit: 16777216,
            write_sql_limit: 167772160,
        },
        storage: StorageConfig {
            path: "data/db".to_string(),
            max_summary_size: 134217728,
            max_level: 4,
            base_file_size: 16777216,
            compact_trigger: 4,
            max_compact_size: 2147483648,
            strict_write: true,
        },
        wal: WalConfig { enabled: true, path: "data/wal".to_string(), sync: true },
        cache: CacheConfig { max_buffer_size: 1048576, max_immutable_number: 4 },
        log: LogConfig { level: "info".to_string(), path: "data/log".to_string() },
        security: SecurityConfig { tls_config: None },
        reporting_disabled: None,
    }
}

#[test]
fn empty_overrides_leave_config_unchanged() {
    let mut c = base_config();
    c.override_by_env(&EnvOverrides::none());
    assert_eq!(c.storage.path, "data/db");
    assert_eq!(c.storage.max_summary_size, 134217728);
    assert_eq!(c.storage.max_level, 4);
    assert_eq!(c.wal.enabled, true);
    assert_eq!(c.wal.sync, true);
    assert_eq!(c.cache.max_buffer_size, 1048576);
    assert_eq!(c.query.max_server_connections, 10240);
    assert_eq!(c.log.level, "info");
}

#[test]
fn overrides_replace_set_fields_only() {
    let mut c = base_config();
    let mut env = EnvOverrides::none();
    env.storage_path = Some("other/db".to_string());
    env.storage_max_level = Some("7".to_string());
    env.cache_max_immutable_number = Some("9".to_string());
    env.query_write_sql_limit = Some("1000".to_string());
    c.override_by_env(&env);
    assert_eq!(c.storage.path, "other/db");
    assert_eq!(c.storage.max_level, 7);
    assert_eq!(c.storage.max_summary_size, 134217728);
    assert_eq!(c.cache.max_immutable_number, 9);
    assert_eq!(c.cache.max_buffer_size, 1048576);
    assert_eq!(c.query.write_sql_limit, 1000);
    assert_eq!(c.query.query_sql_limit, 16777216);
}

#[test]
fn wal_overrides_parse_booleans() {
    let mut w = WalConfig { enabled: false, path: "p".to_string(), sync: true };
    let mut env = EnvOverrides::none();
    env.wal_enabled = Some("true".to_string());
    env.wal_sync = Some("false".to_string());
    w.override_by_env(&env);
    assert_eq!(w.enabled, true);
    assert_eq!(w.sync, false);

    // The enabled flag is a plain text comparison: anything but "true"
    // switches it off.
    let mut env2 = EnvOverrides::none();
    env2.wal_enabled = Some("TRUE".to_string());
    w.override_by_env(&env2);
    assert_eq!(w.enabled, false);

    // A sync text that is neither "true" nor "false" keeps the previous
    // value.
    let mut env3 = EnvOverrides::none();
    env3.wal_sync = Some("maybe".to_string());
    w.sync = true;
    w.override_by_env(&env3);
    assert_eq!(w.sync, true);
}

#[test]
fn log_overrides_replace_strings() {
    let mut l = LogConfig { level: "info".to_string(), path: "data/log".to_string() };
    let mut env = EnvOverrides::none();
    env.log_level = Some("debug".to_string());
    l.override_by_env(&env);
    assert_eq!(l.level, "debug");
    assert_eq!(l.path, "data/log");
}
