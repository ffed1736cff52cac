//! The records that the engine keeps in its database.
use vstd::prelude::*;

verus! {

/// An instant in UTC: whole seconds since the Unix epoch and the nanoseconds
/// past that second.
#[derive(Clone, Copy, Debug, PartialEq, Eq, Structural)]
pub struct Timestamp {
    pub secs: i64,
    pub nanos: u32,
}

/// A user allowed to sign in.
pub struct User {
    pub username: String,
    pub password_hash: String,
    /// `"admin"` or `"viewer"`.
    pub role: String,
}

/// An installed module and its scheduling state.
pub struct ModuleRecord {
    /// The module's identifier, e.g. `metrics-system`.
    pub id: String,
    pub name: String,
    pub version: String,
    pub author: String,
    pub description: String,
    /// The active configuration (JSON).
    pub config: String,
    pub default_config: String,
    pub interval_secs: u64,
    pub cron: Option<String>,
    pub enabled: bool,
    /// `"running"`, `"paused"`, `"error"` or `"installed"`.
    pub status: String,
    pub last_run: Option<Timestamp>,
    pub last_error: Option<String>,
    pub lib_path: String,
}

/// One line of a module's activity log.
pub struct LogRecord {
    pub module_id: String,
    pub timestamp: Timestamp,
    /// `"info"`, `"error"` or `"warn"`.
    pub level: String,
    pub message: String,
}

/// The stored global settings: the backend configuration as JSON.
pub struct DbSettingsRecord {
    pub config_json: String,
}

/// The two records agree on every field but `status`.
pub open spec fn same_but_status(a: ModuleRecord, b: ModuleRecord) -> bool {
    &&& a.id == b.id
    &&& a.name == b.name
    &&& a.version == b.version
    &&& a.author == b.author
    &&& a.description == b.description
    &&& a.config == b.config
    &&& a.default_config == b.default_config
    &&& a.interval_secs == b.interval_secs
    &&& a.cron == b.cron
    &&& a.enabled == b.enabled
    &&& a.last_run == b.last_run
    &&& a.last_error == b.last_error
    &&& a.lib_path == b.lib_path
}

/// The two records agree on everything that identifies and describes the
/// module: all fields but `config`, `interval_secs`, `enabled`, `status`,
/// `last_run` and `last_error`.
pub open spec fn same_identity(a: ModuleRecord, b: ModuleRecord) -> bool {
    &&& a.id == b.id
    &&& a.name == b.name
    &&& a.version == b.version
    &&& a.author == b.author
    &&& a.description == b.description
    &&& a.default_config == b.default_config
    &&& a.cron == b.cron
    &&& a.lib_path == b.lib_path
}

} // verus!
