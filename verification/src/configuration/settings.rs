//! The settings of the service, and what they say of the connection to the
//! database and of the sources they are read from.

use vstd::prelude::*;
use vstd::string::StringExecFns;
use crate::configuration::environment::{
    environment_named, lowercased, parsed_view, ConfigurationEnvironment,
};

verus! {

/// Where the service listens.
#[derive(Debug)]
pub struct ApplicationSettings {
    pub host_address: String,
    pub port: u16,
}

/// How the database is reached. `ssl_mode` says whether an encrypted
/// connection is required.
pub struct DatabaseSettings {
    pub database_name: String,
    pub host: String,
    pub password: String,
    pub port: u16,
    pub username: String,
    pub ssl_mode: bool,
}

/// All settings of the service.
pub struct Settings {
    pub application: ApplicationSettings,
    pub database: DatabaseSettings,
}

/// Whether a connection must be encrypted, or only should be.
#[derive(Clone, Copy, Debug, PartialEq, Eq, Structural)]
pub enum SslMode {
    Prefer,
    Require,
}

/// The options of a connection to the database server.
pub struct ConnectOptions {
    pub host: String,
    pub port: u16,
    pub username: String,
    pub password: String,
    pub ssl_mode: SslMode,
    /// The database to open; `None` connects to the server alone.
    pub database: Option<String>,
    /// Whether each statement is logged at the finest level.
    pub trace_statements: bool,
}

/// The options of a connection, their texts as sequences of characters.
pub struct ConnectOptionsView {
    pub host: Seq<char>,
    pub port: u16,
    pub username: Seq<char>,
    pub password: Seq<char>,
    pub ssl_mode: SslMode,
    pub database: Option<Seq<char>>,
    pub trace_statements: bool,
}

impl View for ConnectOptions {
    type V = ConnectOptionsView;

    open spec fn view(&self) -> ConnectOptionsView {
        ConnectOptionsView {
            host: self.host@,
            port: self.port,
            username: self.username@,
            password: self.password@,
            ssl_mode: self.ssl_mode,
            database: match self.database {
                Some(name) => Some(name@),
                None => None,
            },
            trace_statements: self.trace_statements,
        }
    }
}

impl DatabaseSettings {
    /// The options of a connection to the server, with no database chosen.
    pub open spec fn server_options(&self) -> ConnectOptionsView {
        ConnectOptionsView {
            host: self.host@,
            port: self.port,
            username: self.username@,
            password: self.password@,
            ssl_mode: if self.ssl_mode {
                SslMode::Require
            } else {
                SslMode::Prefer
            },
            database: None,
            trace_statements: false,
        }
    }

    /// The options of a connection to the service's database.
    pub open spec fn database_options(&self) -> ConnectOptionsView {
        ConnectOptionsView {
            database: Some(self.database_name@),
            trace_statements: true,
            ..self.server_options()
        }
    }

    /// Options to connect to the server without opening a database:
    /// encryption is required where the settings ask for it, and preferred
    /// otherwise.
    pub fn without_database(&self) -> (options: ConnectOptions)
        ensures
            options@ == self.server_options(),
    {
        ConnectOptions {
            host: self.host.clone(),
            port: self.port,
            username: self.username.clone(),
            password: self.password.clone(),
            ssl_mode: if self.ssl_mode {
                SslMode::Require
            } else {
                SslMode::Prefer
            },
            database: None,
            trace_statements: false,
        }
    }

    /// Options to connect to the service's database, with every statement
    /// logged at the finest level.
    pub fn with_database(&self) -> (options: ConnectOptions)
        ensures
            options@ == self.database_options(),
    {
        let mut options = self.without_database();
        options.database = Some(self.database_name.clone());
        options.trace_statements = true;
        options
    }
}

/// A source of settings.
#[derive(Debug)]
pub enum ConfigSource {
    /// A file in the configuration directory, which must exist.
    RequiredFile(String),
    /// The variables of the environment whose names start with `prefix`
    /// and `prefix_separator`; `separator` parts the levels of a key.
    Environment { prefix: String, prefix_separator: String, separator: String },
}

/// A source of settings, its texts as sequences of characters.
pub enum ConfigSourceView {
    RequiredFile(Seq<char>),
    Environment { prefix: Seq<char>, prefix_separator: Seq<char>, separator: Seq<char> },
}

impl View for ConfigSource {
    type V = ConfigSourceView;

    open spec fn view(&self) -> ConfigSourceView {
        match self {
            ConfigSource::RequiredFile(name) => ConfigSourceView::RequiredFile(name@),
            ConfigSource::Environment { prefix, prefix_separator, separator } => {
                ConfigSourceView::Environment {
                    prefix: prefix@,
                    prefix_separator: prefix_separator@,
                    separator: separator@,
                }
            },
        }
    }
}

/// The sources of the settings in `environment`, a later one overriding an
/// earlier one: the base file, the environment's own file, and the
/// variables that start with `APP__`.
pub open spec fn sources_of(environment: ConfigurationEnvironment) -> Seq<ConfigSourceView> {
    seq![
        ConfigSourceView::RequiredFile("base.yaml"@),
        ConfigSourceView::RequiredFile(environment.name() + ".yaml"@),
        ConfigSourceView::Environment {
            prefix: "APP"@,
            prefix_separator: "__"@,
            separator: "_"@,
        },
    ]
}

/// Lists the sources to read the settings from, in the order in which they
/// are merged.
pub fn configuration_sources(environment: ConfigurationEnvironment) -> (sources: Vec<ConfigSource>)
    ensures
        sources@.map_values(|s: ConfigSource| s@) == sources_of(environment),
{
    let mut sources: Vec<ConfigSource> = Vec::new();
    sources.push(ConfigSource::RequiredFile("base.yaml".to_owned()));
    sources.push(
        ConfigSource::RequiredFile(String::from_str(environment.as_str()).concat(".yaml")),
    );
    sources.push(
        ConfigSource::Environment {
            prefix: "APP".to_owned(),
            prefix_separator: "__".to_owned(),
            separator: "_".to_owned(),
        },
    );
    assert(sources@.map_values(|s: ConfigSource| s@) =~= sources_of(environment));
    sources
}

/// The environment that the variable `APP_ENVIRONMENT` selects, given what
/// it holds once its lower-case form is known: development where it is not
/// set.
pub open spec fn selected_environment(variable: Option<Seq<char>>) -> Result<
    ConfigurationEnvironment,
    Seq<char>,
> {
    match variable {
        Some(text) => environment_named(text, lowercased(text)),
        None => Ok(ConfigurationEnvironment::Development),
    }
}

/// Picks the environment to run in from what the variable
/// `APP_ENVIRONMENT` holds, if it is set.
pub fn select_environment(variable: Option<&str>) -> (r: Result<ConfigurationEnvironment, String>)
    ensures
        parsed_view(r) == selected_environment(
            match variable {
                Some(text) => Some(text@),
                None => None,
            },
        ),
{
    match variable {
        Some(text) => ConfigurationEnvironment::from_str(text),
        None => Ok(ConfigurationEnvironment::Development),
    }
}

} // verus!
