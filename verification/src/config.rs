//! The startup configuration: where to connect, where to publish, and where
//! to log. It is written in TOML, which the `toml` crate reads.

use vstd::prelude::*;
use vstd::string::*;
use vstd::utf8::encode_utf8;
use crate::limits::{check_toml_limits, toml_within_limits};
use crate::packet::optional_text;

verus! {

/// The socket that the frames come from.
#[derive(Debug, Clone, PartialEq, Eq)]
pub struct UkhasnetConfig {
    /// Host and port.
    pub socket: String,
}

/// The endpoint that the records go to.
#[derive(Debug, Clone, PartialEq, Eq)]
pub struct InfluxDBConfig {
    pub url: String,
    pub username: String,
    pub password: String,
}

/// The configuration.
#[derive(Debug, Clone, PartialEq, Eq)]
pub struct Config {
    pub ukhasnet: UkhasnetConfig,
    pub influxdb: InfluxDBConfig,
    pub logfile: String,
}

pub struct ConfigView {
    pub socket: Seq<char>,
    pub url: Seq<char>,
    pub username: Seq<char>,
    pub password: Seq<char>,
    pub logfile: Seq<char>,
}

impl View for Config {
    type V = ConfigView;

    open spec fn view(&self) -> ConfigView {
        ConfigView {
            socket: self.ukhasnet.socket@,
            url: self.influxdb.url@,
            username: self.influxdb.username@,
            password: self.influxdb.password@,
            logfile: self.logfile@,
        }
    }
}

/// The settings of a configuration.
#[derive(Debug, Clone, Copy, PartialEq, Eq, Structural)]
pub enum ConfigKey {
    Socket,
    Url,
    Username,
    Password,
    Logfile,
}

/// Why a text gives no configuration.
#[derive(Debug, Clone, Copy, PartialEq, Eq, Structural)]
pub enum ConfigError {
    /// Arrays and tables stand deeper inside one another, or a header has
    /// more parts, than the reader of TOML is given.
    TooDeep,
    /// The text is not TOML.
    Unparsable,
    /// The setting is not there, or is not a string.
    Missing(ConfigKey),
}

/// Where a setting stands in the document: the names of the tables that
/// lead to it and its own name, with dots between them.
pub open spec fn path_of(key: ConfigKey) -> Seq<char> {
    match key {
        ConfigKey::Socket => "ukhasnet.socket"@,
        ConfigKey::Url => "influxdb.url"@,
        ConfigKey::Username => "influxdb.username"@,
        ConfigKey::Password => "influxdb.password"@,
        ConfigKey::Logfile => "logfile"@,
    }
}

/// Whether `toml::Parser::parse` reads the text as a TOML document.
pub uninterp spec fn toml_parses(text: Seq<char>) -> bool;

/// The string that `toml::Value::lookup` and `toml::Value::as_str` find at a
/// path of the document that the text holds; nothing where the path leads
/// nowhere or to a value that is not a string.
pub uninterp spec fn toml_string_at(text: Seq<char>, path: Seq<char>) -> Option<Seq<char>>;

/// The configuration that the settings give. The settings are looked at in
/// the order socket, URL, user name, password, log file, and the first that
/// is missing is the failure.
pub open spec fn assembled(
    socket: Option<Seq<char>>,
    url: Option<Seq<char>>,
    username: Option<Seq<char>>,
    password: Option<Seq<char>>,
    logfile: Option<Seq<char>>,
) -> Result<ConfigView, ConfigError> {
    match socket {
        None => Err(ConfigError::Missing(ConfigKey::Socket)),
        Some(socket) => match url {
            None => Err(ConfigError::Missing(ConfigKey::Url)),
            Some(url) => match username {
                None => Err(ConfigError::Missing(ConfigKey::Username)),
                Some(username) => match password {
                    None => Err(ConfigError::Missing(ConfigKey::Password)),
                    Some(password) => match logfile {
                        None => Err(ConfigError::Missing(ConfigKey::Logfile)),
                        Some(logfile) => Ok(
                            ConfigView { socket, url, username, password, logfile },
                        ),
                    },
                },
            },
        },
    }
}

/// The configuration that a text gives.
pub open spec fn config_of(text: Seq<char>) -> Result<ConfigView, ConfigError> {
    if !toml_within_limits(encode_utf8(text)) {
        Err(ConfigError::TooDeep)
    } else if !toml_parses(text) {
        Err(ConfigError::Unparsable)
    } else {
        assembled(
            toml_string_at(text, path_of(ConfigKey::Socket)),
            toml_string_at(text, path_of(ConfigKey::Url)),
            toml_string_at(text, path_of(ConfigKey::Username)),
            toml_string_at(text, path_of(ConfigKey::Password)),
            toml_string_at(text, path_of(ConfigKey::Logfile)),
        )
    }
}

/// The view of a configuration or a failure.
pub open spec fn config_result(r: Result<Config, ConfigError>) -> Result<ConfigView, ConfigError> {
    match r {
        Ok(config) => Ok(config@),
        Err(e) => Err(e),
    }
}

/// Reads `text` with `toml::Parser::parse` and looks each of `paths` up in
/// the document with `toml::Value::lookup` and `toml::Value::as_str`.
///
/// Trusted: whether there is a document is a function of the text alone, and
/// what is found at a path is a function of the text and the path alone. The
/// strings come in the order of the paths. The text is held within limits,
/// because the outside code calls itself for each array or table inside
/// another, and a header makes a table inside another for each of its
/// parts.
#[verifier::external_body]
fn toml_strings(text: &str, paths: &Vec<&str>) -> (r: Option<Vec<Option<String>>>)
    requires
        toml_within_limits(text.spec_bytes()),
    ensures
        r is Some <==> toml_parses(text@),
        r matches Some(found) ==> found@.len() == paths@.len() && forall|i: int|
            0 <= i < paths@.len() ==> optional_text(#[trigger] found@[i]) == toml_string_at(
                text@,
                paths@[i]@,
            ),
{
    let document = toml::Value::Table(toml::Parser::new(text).parse()?);
    Some(
        paths.iter().map(
            |path| document.lookup(path).and_then(|value| value.as_str()).map(|s| s.to_owned()),
        ).collect(),
    )
}

impl Config {
    /// Builds a configuration from its settings, each as it was found.
    pub fn assemble(
        socket: Option<String>,
        url: Option<String>,
        username: Option<String>,
        password: Option<String>,
        logfile: Option<String>,
    ) -> (r: Result<Config, ConfigError>)
        ensures
            config_result(r) == assembled(
                optional_text(socket),
                optional_text(url),
                optional_text(username),
                optional_text(password),
                optional_text(logfile),
            ),
    {
        let socket: String = match socket {
            Some(text) => text,
            None => { return Err(ConfigError::Missing(ConfigKey::Socket)); },
        };
        let url: String = match url {
            Some(text) => text,
            None => { return Err(ConfigError::Missing(ConfigKey::Url)); },
        };
        let username: String = match username {
            Some(text) => text,
            None => { return Err(ConfigError::Missing(ConfigKey::Username)); },
        };
        let password: String = match password {
            Some(text) => text,
            None => { return Err(ConfigError::Missing(ConfigKey::Password)); },
        };
        let logfile: String = match logfile {
            Some(text) => text,
            None => { return Err(ConfigError::Missing(ConfigKey::Logfile)); },
        };
        Ok(
            Config {
                ukhasnet: UkhasnetConfig { socket },
                influxdb: InfluxDBConfig { url, username, password },
                logfile,
            },
        )
    }
}

/// Reads a configuration from the text of its file.
pub fn parse_config(text: &str) -> (r: Result<Config, ConfigError>)
    ensures
        config_result(r) == config_of(text@),
{
    if !check_toml_limits(text.as_bytes()) {
        return Err(ConfigError::TooDeep);
    }
    let mut paths: Vec<&str> = Vec::new();
    paths.push("ukhasnet.socket");
    paths.push("influxdb.url");
    paths.push("influxdb.username");
    paths.push("influxdb.password");
    paths.push("logfile");
    let mut found: Vec<Option<String>> = match toml_strings(text, &paths) {
        Some(found) => found,
        None => { return Err(ConfigError::Unparsable); },
    };
    let logfile: Option<String> = found.pop().unwrap();
    let password: Option<String> = found.pop().unwrap();
    let username: Option<String> = found.pop().unwrap();
    let url: Option<String> = found.pop().unwrap();
    let socket: Option<String> = found.pop().unwrap();
    Config::assemble(socket, url, username, password, logfile)
}

} // verus!
