//! A user-management service core: the rules that decide what each request
//! to the user resource does to the stored users and what the client is told.

pub mod clock;
pub mod configuration;
pub mod ids;
pub mod routes;
pub mod store;

pub use configuration::{
    configuration_sources, select_environment, ApplicationSettings, ConfigSource,
    ConfigurationEnvironment, ConnectOptions, DatabaseSettings, Settings, SslMode,
};
