//! The configuration of the agent, and what happens when none can be read.

use vstd::prelude::*;

verus! {

// FIXME this should not rely on the `~` char and should
// be placed in an app-specific, xdg compliant location
pub const DEFAULT_CACHE_DIR: &'static str = "~/";

pub const DEFAULT_CONFIG_FILE_NAME: &'static str = ".mfa-agent-config.yaml";

#[derive(Debug, Clone)]
pub struct Config {
    pub agent_id: Option<String>,
    pub default_db_path: Option<String>,
    pub last_db_path: Option<String>,
}

impl Default for Config {
    fn default() -> (config: Self)
        ensures
            config.agent_id is None,
            config.default_db_path is None,
            config.last_db_path is None,
    {
        Config { agent_id: None, default_db_path: None, last_db_path: None }
    }
}

/// The path of the configuration file.
pub fn config_file_path() -> (path: String)
    ensures
        path@ == DEFAULT_CACHE_DIR@ + DEFAULT_CONFIG_FILE_NAME@,
{
    let mut path = String::from_str(DEFAULT_CACHE_DIR);
    path.append(DEFAULT_CONFIG_FILE_NAME);
    path
}

/// What to do with the outcome of reading the configuration file.
pub enum ConfigInit {
    /// Use the configuration that was read.
    Use(Config),
    /// Write this configuration to the file, then use what reads back.
    Initialize(Config),
}

/// Decides between the configuration that was read and writing a default
/// one: a configuration that was read is used as it is, and any failure to
/// read (whatever its message) leads to writing the default configuration.
pub fn read_or_init(read: Result<Config, String>) -> (next: ConfigInit)
    ensures
        match read {
            Ok(c) => next == ConfigInit::Use(c),
            Err(_) => next matches ConfigInit::Initialize(c) && c.agent_id is None
                && c.default_db_path is None && c.last_db_path is None,
        },
{
    match read {
        Ok(config) => ConfigInit::Use(config),
        Err(_) => ConfigInit::Initialize(Config::default()),
    }
}

} // verus!
