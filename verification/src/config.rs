//! Application settings: the resolved, immutable snapshot that every other
//! component reads.

use vstd::prelude::*;
use vstd::string::*;

verus! {

/// The whole configuration of the application.
#[derive(Debug)]
pub struct Config {
    /// Version of the application.
    pub version: String,
    /// How to reach the database.
    pub database: DatabaseConfig,
    /// Where the HTTP server listens.
    pub server: ServerConfig,
}

/// How to reach the database.
#[derive(Debug)]
pub struct DatabaseConfig {
    pub host: String,
    pub port: u16,
    pub name: String,
    pub user: String,
    pub password: String,
    pub max_connections: u32,
    pub connection_timeout: std::time::Duration,
}

/// Where the HTTP server listens.
#[derive(Debug)]
pub struct ServerConfig {
    pub host: String,
    pub port: u16,
}

/// Where the settings are read from, lowest priority first: the default
/// file, the file of the run mode, and the environment variables with the
/// prefix. Neither file has to exist.
#[derive(Debug)]
pub struct ConfigSources {
    pub default_file: String,
    pub mode_file: String,
    pub environment_prefix: String,
}

/// The run mode in force: the one asked for, or `development` where none is.
pub open spec fn run_mode_text(requested: Option<Seq<char>>) -> Seq<char> {
    match requested {
        Some(mode) => mode,
        None => "development"@,
    }
}

/// The settings file of the run mode `mode`.
pub open spec fn mode_file_text(mode: Seq<char>) -> Seq<char> {
    "config/"@ + mode + ".toml"@
}

/// The sources of the settings for the run mode asked for in `requested`.
pub fn config_sources(requested: Option<&str>) -> (sources: ConfigSources)
    ensures
        sources.default_file@ == "config/default.toml"@,
        sources.mode_file@ == mode_file_text(
            run_mode_text(
                match requested {
                    Some(mode) => Some(mode@),
                    None => None,
                },
            ),
        ),
        sources.environment_prefix@ == "CARGO"@,
{
    let mut mode_file = String::from_str("config/");
    match requested {
        Some(mode) => mode_file.append(mode),
        None => mode_file.append("development"),
    }
    mode_file.append(".toml");
    ConfigSources {
        default_file: String::from_str("config/default.toml"),
        mode_file,
        environment_prefix: String::from_str("CARGO"),
    }
}

impl Config {
    /// The settings with the application's version filled in; every other
    /// field stays as it was read.
    pub fn with_version(self, version: &str) -> (config: Config)
        ensures
            config.version@ == version@,
            config.database == self.database,
            config.server == self.server,
    {
        Config { version: String::from_str(version), database: self.database, server: self.server }
    }
}

} // verus!
