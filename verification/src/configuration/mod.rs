//! Settings of the service and the environment that selects them.

pub mod environment;
pub mod settings;

pub use environment::ConfigurationEnvironment;
pub use settings::{
    configuration_sources, select_environment, ApplicationSettings, ConfigSource, ConnectOptions,
    DatabaseSettings, Settings, SslMode,
};
