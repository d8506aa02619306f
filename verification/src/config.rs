use vstd::prelude::*;

verus! {

/// Daemon configuration: engine, API and logging sections.
#[derive(Debug, Clone)]
pub struct VigilConfig {
    pub engine: EngineConfig,
    pub api: ApiConfig,
    pub logging: LoggingConfig,
}

/// Engine section of the configuration.
#[derive(Debug, Clone)]
pub struct EngineConfig {
    /// Path of the SQLite database file
    pub db_path: String,
    /// Maximum number of polls in flight
    pub max_concurrent_polls: usize,
    /// Period of the scheduler tick, in milliseconds
    pub tick_interval_ms: u64,
    /// Days of poll history to keep
    pub retention_days: u32,
}

/// API section of the configuration.
#[derive(Debug, Clone)]
pub struct ApiConfig {
    /// Address the API listens on (localhost by default)
    pub bind_address: String,
}

/// Logging section of the configuration.
#[derive(Debug, Clone)]
pub struct LoggingConfig {
    /// Log level: trace, debug, info, warn or error
    pub level: String,
}

impl Default for EngineConfig {
    fn default() -> (c: Self)
        ensures
            c.db_path@ == "/var/lib/vigil/vigil.db"@,
            c.max_concurrent_polls == 128,
            c.tick_interval_ms == 100,
            c.retention_days == 30,
    {
        broadcast use vstd::string::group_string_axioms;
        EngineConfig {
            db_path: "/var/lib/vigil/vigil.db".to_string(),
            max_concurrent_polls: 128,
            tick_interval_ms: 100,
            retention_days: 30,
        }
    }
}

impl Default for ApiConfig {
    fn default() -> (c: Self)
        ensures
            c.bind_address@ == "127.0.0.1:3030"@,
    {
        broadcast use vstd::string::group_string_axioms;
        ApiConfig { bind_address: "127.0.0.1:3030".to_string() }
    }
}

impl Default for LoggingConfig {
    fn default() -> (c: Self)
        ensures
            c.level@ == "info"@,
    {
        broadcast use vstd::string::group_string_axioms;
        LoggingConfig { level: "info".to_string() }
    }
}

impl Default for VigilConfig {
    fn default() -> (c: Self)
        ensures
            c.engine.db_path@ == "/var/lib/vigil/vigil.db"@,
            c.engine.max_concurrent_polls == 128,
            c.engine.tick_interval_ms == 100,
            c.engine.retention_days == 30,
            c.api.bind_address@ == "127.0.0.1:3030"@,
            c.logging.level@ == "info"@,
    {
        VigilConfig {
            engine: EngineConfig::default(),
            api: ApiConfig::default(),
            logging: LoggingConfig::default(),
        }
    }
}

impl VigilConfig {
    /// Apply overrides (from the environment or the command line): each
    /// value that is given replaces the configured one.
    pub fn apply_overrides(
        &mut self,
        db_path: Option<String>,
        bind_address: Option<String>,
        log_level: Option<String>,
    )
        ensures
            final(self).engine.db_path == match db_path {
                Some(v) => v,
                None => old(self).engine.db_path,
            },
            final(self).api.bind_address == match bind_address {
                Some(v) => v,
                None => old(self).api.bind_address,
            },
            final(self).logging.level == match log_level {
                Some(v) => v,
                None => old(self).logging.level,
            },
            final(self).engine.max_concurrent_polls == old(self).engine.max_concurrent_polls,
            final(self).engine.tick_interval_ms == old(self).engine.tick_interval_ms,
            final(self).engine.retention_days == old(self).engine.retention_days,
    {
        if let Some(v) = db_path {
            self.engine.db_path = v;
        }
        if let Some(v) = bind_address {
            self.api.bind_address = v;
        }
        if let Some(v) = log_level {
            self.logging.level = v;
        }
    }
}

/// The log level to run with: the configured one without `-v`, `"debug"`
/// with one `-v`, and `"trace"` with more.
pub fn log_level_for(verbose: u8, configured: &str) -> (level: String)
    ensures
        verbose == 0 ==> level@ == configured@,
        verbose == 1 ==> level@ == "debug"@,
        verbose >= 2 ==> level@ == "trace"@,
{
    broadcast use vstd::string::group_string_axioms;
    if verbose == 0 {
        configured.to_string()
    } else if verbose == 1 {
        "debug".to_string()
    } else {
        "trace".to_string()
    }
}

} // verus!
