//! The client configuration (`~/.tuhucar/config.toml`) and its defaults.

use vstd::prelude::*;
use crate::error::TuhucarError;
use crate::text::{cat, cat3, join, join_path, owned};

verus! {

/// The whole configuration file.
#[derive(Debug, Clone)]
pub struct Config {
    pub api: ApiConfig,
    pub output: OutputConfig,
}

/// Where the gateway is and how long to wait for it.  The address is
/// written `endpoint` in the file; the older key `base_url` is accepted too.
#[derive(Debug, Clone)]
pub struct ApiConfig {
    pub base_url: String,
    pub timeout: u64,
}

/// Output preferences.
#[derive(Debug, Clone)]
pub struct OutputConfig {
    pub default_format: String,
}

/// The request timeout, in seconds, when the file names none.
pub fn default_timeout() -> (t: u64)
    ensures
        t == 30,
{
    30
}

/// The output format when the file names none.
pub fn default_format() -> (f: String)
    ensures
        f@ == "markdown"@,
{
    owned("markdown")
}

impl Default for OutputConfig {
    fn default() -> (c: Self)
        ensures
            c.default_format@ == "markdown"@,
    {
        OutputConfig { default_format: default_format() }
    }
}

/// The directory that holds the configuration, under the home directory.
pub open spec fn config_dir_of(home: Seq<char>) -> Seq<char> {
    join_path(home, ".tuhucar"@)
}

impl Config {
    /// `<home>/.tuhucar`.
    pub fn config_dir(home: &str) -> (d: String)
        ensures
            d@ == config_dir_of(home@),
    {
        join(home, ".tuhucar")
    }

    /// `<home>/.tuhucar/config.toml`.
    pub fn config_path(home: &str) -> (p: String)
        ensures
            p@ == join_path(config_dir_of(home@), "config.toml"@),
    {
        let dir = Config::config_dir(home);
        join(dir.as_str(), "config.toml")
    }

    /// The configuration that `config init` writes.
    pub fn default_config() -> (c: Config)
        ensures
            c.api.base_url@ == "https://api.tuhucar.com"@,
            c.api.timeout == 30,
            c.output.default_format@ == "markdown"@,
    {
        Config {
            api: ApiConfig { base_url: owned("https://api.tuhucar.com"), timeout: 30 },
            output: OutputConfig::default(),
        }
    }

    /// What `config init` reports after writing the file at `path`.
    pub fn saved_message(path: &str) -> (m: String)
        ensures
            m@ == "Configuration saved to "@ + path@,
    {
        cat("Configuration saved to ", path)
    }

    /// The hint that follows, in markdown mode.
    pub fn edit_hint(path: &str) -> (m: String)
        ensures
            m@ == "Edit "@ + path@ + " to customize settings."@,
    {
        cat3("Edit ", path, " to customize settings.")
    }

    /// The error for a configuration file that does not exist.
    pub fn missing() -> (e: TuhucarError)
        ensures
            e matches TuhucarError::ConfigMissing { suggestion } && suggestion@
                == "Run: tuhucar config init"@,
    {
        TuhucarError::ConfigMissing { suggestion: owned("Run: tuhucar config init") }
    }

    /// The error for a configuration file at `path` that could not be read
    /// or parsed, `detail` saying why.
    pub fn unreadable(path: &str, detail: &str) -> (e: TuhucarError)
        ensures
            e matches TuhucarError::ConfigParse(m) && m@ == path@ + ": "@ + detail@,
    {
        TuhucarError::ConfigParse(cat3(path, ": ", detail))
    }

    /// The error for a configuration directory that could not be created.
    pub fn dir_not_created(detail: &str) -> (e: TuhucarError)
        ensures
            e matches TuhucarError::ConfigParse(m) && m@ == "Cannot create dir: "@ + detail@,
    {
        TuhucarError::ConfigParse(cat("Cannot create dir: ", detail))
    }

    /// The error for a configuration that could not be encoded or written.
    pub fn not_saved(detail: &str) -> (e: TuhucarError)
        ensures
            e matches TuhucarError::ConfigParse(m) && m@ == detail@,
    {
        TuhucarError::ConfigParse(owned(detail))
    }
}

} // verus!
