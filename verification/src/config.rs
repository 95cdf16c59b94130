//! The validated configuration records that parametrize the catalog's
//! surroundings, and the application of environment overrides to them.
//! Reading the environment is I/O and stays outside; the records receive
//! an override snapshot of already-read optional variables and apply it
//! deterministically.

use vstd::prelude::*;

use crate::text::{parse_u64, parse_u64_spec, str_eq};

verus! {

/// Snapshot of the optional override variables, one per configurable
/// parameter; `None` means the variable was not set.
#[derive(Debug, Clone)]
pub struct EnvOverrides {
    pub storage_path: Option<String>,
    pub storage_max_summary_size: Option<String>,
    pub storage_max_level: Option<String>,
    pub storage_base_file_size: Option<String>,
    pub storage_compact_trigger: Option<String>,
    pub storage_max_compact_size: Option<String>,
    pub storage_strict_write: Option<String>,
    pub wal_enabled: Option<String>,
    pub wal_path: Option<String>,
    pub wal_sync: Option<String>,
    pub cache_max_buffer_size: Option<String>,
    pub cache_max_immutable_number: Option<String>,
    pub query_max_server_connections: Option<String>,
    pub query_query_sql_limit: Option<String>,
    pub query_write_sql_limit: Option<String>,
    pub log_level: Option<String>,
    pub log_path: Option<String>,
}

impl EnvOverrides {
    /// An empty snapshot: no variable set, every override left alone.
    pub fn none() -> (r: EnvOverrides)
        ensures
            r.storage_path is None,
            r.storage_max_summary_size is None,
            r.storage_max_level is None,
            r.storage_base_file_size is None,
            r.storage_compact_trigger is None,
            r.storage_max_compact_size is None,
            r.storage_strict_write is None,
            r.wal_enabled is None,
            r.wal_path is None,
            r.wal_sync is None,
            r.cache_max_buffer_size is None,
            r.cache_max_immutable_number is None,
            r.query_max_server_connections is None,
            r.query_query_sql_limit is None,
            r.query_write_sql_limit is None,
            r.log_level is None,
            r.log_path is None,
    {
        EnvOverrides {
            storage_path: None,
            storage_max_summary_size: None,
            storage_max_level: None,
            storage_base_file_size: None,
            storage_compact_trigger: None,
            storage_max_compact_size: None,
            storage_strict_write: None,
            wal_enabled: None,
            wal_path: None,
            wal_sync: None,
            cache_max_buffer_size: None,
            cache_max_immutable_number: None,
            query_max_server_connections: None,
            query_query_sql_limit: None,
            query_write_sql_limit: None,
            log_level: None,
            log_path: None,
        }
    }
}

/// Parses a decimal override that the caller has checked to be numeric.
fn parse_u64_required(s: &str) -> (r: u64)
    requires
        parse_u64_spec(s@) is Some,
    ensures
        Some(r) == parse_u64_spec(s@),
{
    match parse_u64(s) {
        Some(v) => v,
        None => vstd::pervasive::unreached(),
    }
}

/// Parses a decimal override that the caller has checked to fit in 32
/// bits.
fn parse_u32_required(s: &str) -> (r: u32)
    requires
        parse_u64_spec(s@) matches Some(v) && v <= u32::MAX,
    ensures
        Some(r as u64) == parse_u64_spec(s@),
{
    let v: u64 = parse_u64_required(s);
    v as u32
}

/// Parses a decimal override that the caller has checked to fit in 16
/// bits.
fn parse_u16_required(s: &str) -> (r: u16)
    requires
        parse_u64_spec(s@) matches Some(v) && v <= u16::MAX,
    ensures
        Some(r as u64) == parse_u64_spec(s@),
{
    let v: u64 = parse_u64_required(s);
    v as u16
}

/// Query-path limits.
#[derive(Debug, Clone)]
pub struct QueryConfig {
    pub max_server_connections: u32,
    pub query_sql_limit: u64,
    pub write_sql_limit: u64,
}

/// Storage-engine parameters.
#[derive(Debug, Clone)]
pub struct StorageConfig {
    pub path: String,
    pub max_summary_size: u64,
    pub max_level: u32,
    pub base_file_size: u64,
    pub compact_trigger: u32,
    pub max_compact_size: u64,
    pub strict_write: bool,
}

/// Write-ahead-log parameters.
#[derive(Debug, Clone)]
pub struct WalConfig {
    pub enabled: bool,
    pub path: String,
    pub sync: bool,
}

/// Write-cache parameters.
#[derive(Debug, Clone)]
pub struct CacheConfig {
    pub max_buffer_size: u64,
    pub max_immutable_number: u16,
}

/// Logging parameters.
#[derive(Debug, Clone)]
pub struct LogConfig {
    pub level: String,
    pub path: String,
}

/// Transport-security parameters.
#[derive(Debug, Clone)]
pub struct TLSConfig {
    pub certificate: String,
    pub private_key: String,
}

/// Security parameters; absent means plain transport.
#[derive(Debug, Clone)]
pub struct SecurityConfig {
    pub tls_config: Option<TLSConfig>,
}

/// The whole validated configuration record, supplied once at startup.
#[derive(Debug, Clone)]
pub struct Config {
    pub query: QueryConfig,
    pub storage: StorageConfig,
    pub wal: WalConfig,
    pub cache: CacheConfig,
    pub log: LogConfig,
    pub security: SecurityConfig,
    pub reporting_disabled: Option<bool>,
}

/// Every set storage override parses: the numeric ones as decimals that
/// fit their fields, the strict-write flag as boolean text.
pub open spec fn storage_env_ok(env: EnvOverrides) -> bool {
    &&& (env.storage_max_summary_size matches Some(s) ==> parse_u64_spec(s@) is Some)
    &&& (env.storage_max_level matches Some(s) ==> (parse_u64_spec(s@) matches Some(v) && v
        <= u32::MAX))
    &&& (env.storage_base_file_size matches Some(s) ==> parse_u64_spec(s@) is Some)
    &&& (env.storage_compact_trigger matches Some(s) ==> (parse_u64_spec(s@) matches Some(v) && v
        <= u32::MAX))
    &&& (env.storage_max_compact_size matches Some(s) ==> parse_u64_spec(s@) is Some)
    &&& (env.storage_strict_write matches Some(s) ==> (s@ == "true"@ || s@ == "false"@))
}

/// How a storage record looks after the overrides: each set variable
/// replaces its field, every other field keeps its previous value.
pub open spec fn storage_overridden(pre: StorageConfig, post: StorageConfig, env: EnvOverrides) -> bool {
    &&& post.path@ == (match env.storage_path {
        Some(p) => p@,
        None => pre.path@,
    })
    &&& (match env.storage_max_summary_size {
        Some(s) => Some(post.max_summary_size) == parse_u64_spec(s@),
        None => post.max_summary_size == pre.max_summary_size,
    })
    &&& (match env.storage_max_level {
        Some(s) => Some(post.max_level as u64) == parse_u64_spec(s@),
        None => post.max_level == pre.max_level,
    })
    &&& (match env.storage_base_file_size {
        Some(s) => Some(post.base_file_size) == parse_u64_spec(s@),
        None => post.base_file_size == pre.base_file_size,
    })
    &&& (match env.storage_compact_trigger {
        Some(s) => Some(post.compact_trigger as u64) == parse_u64_spec(s@),
        None => post.compact_trigger == pre.compact_trigger,
    })
    &&& (match env.storage_max_compact_size {
        Some(s) => Some(post.max_compact_size) == parse_u64_spec(s@),
        None => post.max_compact_size == pre.max_compact_size,
    })
    &&& (match env.storage_strict_write {
        Some(s) => post.strict_write == (s@ == "true"@),
        None => post.strict_write == pre.strict_write,
    })
}

impl StorageConfig {
    /// Applies the storage overrides of an environment snapshot.
    pub fn override_by_env(&mut self, env: &EnvOverrides)
        requires
            storage_env_ok(*env),
        ensures
            storage_overridden(*old(self), *final(self), *env),
    {
        if let Some(p) = &env.storage_path {
            self.path = p.clone();
        }
        if let Some(s) = &env.storage_max_summary_size {
            self.max_summary_size = parse_u64_required(s.as_str());
        }
        if let Some(s) = &env.storage_max_level {
            self.max_level = parse_u32_required(s.as_str());
        }
        if let Some(s) = &env.storage_base_file_size {
            self.base_file_size = parse_u64_required(s.as_str());
        }
        if let Some(s) = &env.storage_compact_trigger {
            self.compact_trigger = parse_u32_required(s.as_str());
        }
        if let Some(s) = &env.storage_max_compact_size {
            self.max_compact_size = parse_u64_required(s.as_str());
        }
        if let Some(s) = &env.storage_strict_write {
            self.strict_write = str_eq(s.as_str(), "true");
        }
    }
}

/// How a write-ahead-log record looks after the overrides: the enabled
/// flag becomes whether the variable reads exactly `true`; the path is
/// replaced; the sync flag takes a parsed boolean and keeps its previous
/// value when the text parses as neither `true` nor `false`.
pub open spec fn wal_overridden(pre: WalConfig, post: WalConfig, env: EnvOverrides) -> bool {
    &&& (match env.wal_enabled {
        Some(s) => post.enabled == (s@ == "true"@),
        None => post.enabled == pre.enabled,
    })
    &&& post.path@ == (match env.wal_path {
        Some(p) => p@,
        None => pre.path@,
    })
    &&& (match env.wal_sync {
        Some(s) => post.sync == (if s@ == "true"@ {
            true
        } else if s@ == "false"@ {
            false
        } else {
            pre.sync
        }),
        None => post.sync == pre.sync,
    })
}

impl WalConfig {
    /// Applies the write-ahead-log overrides of an environment snapshot.
    pub fn override_by_env(&mut self, env: &EnvOverrides)
        ensures
            wal_overridden(*old(self), *final(self), *env),
    {
        if let Some(s) = &env.wal_enabled {
            self.enabled = str_eq(s.as_str(), "true");
        }
        if let Some(p) = &env.wal_path {
            self.path = p.clone();
        }
        if let Some(s) = &env.wal_sync {
            if str_eq(s.as_str(), "true") {
                self.sync = true;
            } else if str_eq(s.as_str(), "false") {
                self.sync = false;
            }
        }
    }
}

/// Every set cache override parses as a decimal that fits its field.
pub open spec fn cache_env_ok(env: EnvOverrides) -> bool {
    &&& (env.cache_max_buffer_size matches Some(s) ==> parse_u64_spec(s@) is Some)
    &&& (env.cache_max_immutable_number matches Some(s) ==> (parse_u64_spec(s@) matches Some(v)
        && v <= u16::MAX))
}

/// How a cache record looks after the overrides.
pub open spec fn cache_overridden(pre: CacheConfig, post: CacheConfig, env: EnvOverrides) -> bool {
    &&& (match env.cache_max_buffer_size {
        Some(s) => Some(post.max_buffer_size) == parse_u64_spec(s@),
        None => post.max_buffer_size == pre.max_buffer_size,
    })
    &&& (match env.cache_max_immutable_number {
        Some(s) => Some(post.max_immutable_number as u64) == parse_u64_spec(s@),
        None => post.max_immutable_number == pre.max_immutable_number,
    })
}

impl CacheConfig {
    /// Applies the cache overrides of an environment snapshot.
    pub fn override_by_env(&mut self, env: &EnvOverrides)
        requires
            cache_env_ok(*env),
        ensures
            cache_overridden(*old(self), *final(self), *env),
    {
        if let Some(s) = &env.cache_max_buffer_size {
            self.max_buffer_size = parse_u64_required(s.as_str());
        }
        if let Some(s) = &env.cache_max_immutable_number {
            self.max_immutable_number = parse_u16_required(s.as_str());
        }
    }
}

/// Every set query override parses as a decimal that fits its field.
pub open spec fn query_env_ok(env: EnvOverrides) -> bool {
    &&& (env.query_max_server_connections matches Some(s) ==> (parse_u64_spec(s@) matches Some(v)
        && v <= u32::MAX))
    &&& (env.query_query_sql_limit matches Some(s) ==> parse_u64_spec(s@) is Some)
    &&& (env.query_write_sql_limit matches Some(s) ==> parse_u64_spec(s@) is Some)
}

/// How a query record looks after the overrides.
pub open spec fn query_overridden(pre: QueryConfig, post: QueryConfig, env: EnvOverrides) -> bool {
    &&& (match env.query_max_server_connections {
        Some(s) => Some(post.max_server_connections as u64) == parse_u64_spec(s@),
        None => post.max_server_connections == pre.max_server_connections,
    })
    &&& (match env.query_query_sql_limit {
        Some(s) => Some(post.query_sql_limit) == parse_u64_spec(s@),
        None => post.query_sql_limit == pre.query_sql_limit,
    })
    &&& (match env.query_write_sql_limit {
        Some(s) => Some(post.write_sql_limit) == parse_u64_spec(s@),
        None => post.write_sql_limit == pre.write_sql_limit,
    })
}

impl QueryConfig {
    /// Applies the query overrides of an environment snapshot.
    pub fn override_by_env(&mut self, env: &EnvOverrides)
        requires
            query_env_ok(*env),
        ensures
            query_overridden(*old(self), *final(self), *env),
    {
        if let Some(s) = &env.query_max_server_connections {
            self.max_server_connections = parse_u32_required(s.as_str());
        }
        if let Some(s) = &env.query_query_sql_limit {
            self.query_sql_limit = parse_u64_required(s.as_str());
        }
        if let Some(s) = &env.query_write_sql_limit {
            self.write_sql_limit = parse_u64_required(s.as_str());
        }
    }
}

/// How a logging record looks after the overrides.
pub open spec fn log_overridden(pre: LogConfig, post: LogConfig, env: EnvOverrides) -> bool {
    &&& post.level@ == (match env.log_level {
        Some(l) => l@,
        None => pre.level@,
    })
    &&& post.path@ == (match env.log_path {
        Some(p) => p@,
        None => pre.path@,
    })
}

impl LogConfig {
    /// Applies the logging overrides of an environment snapshot.
    pub fn override_by_env(&mut self, env: &EnvOverrides)
        ensures
            log_overridden(*old(self), *final(self), *env),
    {
        if let Some(l) = &env.log_level {
            self.level = l.clone();
        }
        if let Some(p) = &env.log_path {
            self.path = p.clone();
        }
    }
}

impl Config {
    /// Applies an environment snapshot to the storage, write-ahead-log,
    /// cache and query sections; the logging, security and reporting
    /// settings are left untouched.
    pub fn override_by_env(&mut self, env: &EnvOverrides)
        requires
            storage_env_ok(*env),
            cache_env_ok(*env),
            query_env_ok(*env),
        ensures
            storage_overridden(old(self).storage, final(self).storage, *env),
            wal_overridden(old(self).wal, final(self).wal, *env),
            cache_overridden(old(self).cache, final(self).cache, *env),
            query_overridden(old(self).query, final(self).query, *env),
            final(self).log == old(self).log,
            final(self).security == old(self).security,
            final(self).reporting_disabled == old(self).reporting_disabled,
    {
        self.storage.override_by_env(env);
        self.wal.override_by_env(env);
        self.cache.override_by_env(env);
        self.query.override_by_env(env);
    }
}

} // verus!
