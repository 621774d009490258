use actix_template::configuration::{
    configuration_sources, select_environment, ConfigSource, ConfigurationEnvironment,
    DatabaseSettings, SslMode,
};

fn database(ssl_mode: bool) -> DatabaseSettings {
    DatabaseSettings {
        database_name: "users".to_string(),
        host: "localhost".to_string(),
        password: "password".to_string(),
        port: 5432,
        username: "postgres".to_string(),
        ssl_mode,
    }
}

#[test]
fn environment_names() {
    assert_eq!(ConfigurationEnvironment::Development.as_str(), "development");
    assert_eq!(ConfigurationEnvironment::Production.as_str(), "production");
}

#[test]
fn environment_is_read_without_regard_to_case() {
    assert_eq!(
        ConfigurationEnvironment::from_str("development"),
        Ok(ConfigurationEnvironment::Development)
    );
    assert_eq!(
        ConfigurationEnvironment::from_str("PRODUCTION"),
        Ok(ConfigurationEnvironment::Production)
    );
    assert_eq!(
        ConfigurationEnvironment::from_str("Development"),
        Ok(ConfigurationEnvironment::Development)
    );
    assert_eq!("Production".parse::<ConfigurationEnvironment>(), Ok(ConfigurationEnvironment::Production));
}

#[test]
fn unknown_environment_is_rejected_with_its_name() {
    assert_eq!(
        ConfigurationEnvironment::from_str("Staging"),
        Err("'Staging' is not a valid configuration environment. Use either development or production".to_string())
    );
    assert_eq!(
        ConfigurationEnvironment::from_str(""),
        Err("'' is not a valid configuration environment. Use either development or production".to_string())
    );
}

#[test]
fn environment_from_its_lower_case_form() {
    assert_eq!(
        ConfigurationEnvironment::from_lowercase("PRODUCTION", "production"),
        Ok(ConfigurationEnvironment::Production)
    );
    assert_eq!(
        ConfigurationEnvironment::from_lowercase("Test", "test"),
        Err("'Test' is not a valid configuration environment. Use either development or production".to_string())
    );
}

#[test]
fn environment_defaults_to_development() {
    assert_eq!(select_environment(None), Ok(ConfigurationEnvironment::Development));
    assert_eq!(select_environment(Some("production")), Ok(ConfigurationEnvironment::Production));
    assert!(select_environment(Some("live")).is_err());
}

#[test]
fn sources_in_the_order_of_merging() {
    let sources = configuration_sources(ConfigurationEnvironment::Production);
    assert_eq!(sources.len(), 3);
    assert!(matches!(&sources[0], ConfigSource::RequiredFile(name) if name == "base.yaml"));
    assert!(matches!(&sources[1], ConfigSource::RequiredFile(name) if name == "production.yaml"));
    match &sources[2] {
        ConfigSource::Environment { prefix, prefix_separator, separator } => {
            assert_eq!(prefix, "APP");
            assert_eq!(prefix_separator, "__");
            assert_eq!(separator, "_");
        }
        other => panic!("not the environment: {:?}", other),
    }
    let sources = configuration_sources(ConfigurationEnvironment::Development);
    assert!(matches!(&sources[1], ConfigSource::RequiredFile(name) if name == "development.yaml"));
}

#[test]
fn connection_without_a_database() {
    let options = database(true).without_database();
    assert_eq!(options.host, "localhost");
    assert_eq!(options.port, 5432);
    assert_eq!(options.username, "postgres");
    assert_eq!(options.password, "password");
    assert_eq!(options.ssl_mode, SslMode::Require);
    assert_eq!(options.database, None);
    assert!(!options.trace_statements);

    assert_eq!(database(false).without_database().ssl_mode, SslMode::Prefer);
}

#[test]
fn connection_with_the_database() {
    let options = database(false).with_database();
    assert_eq!(options.host, "localhost");
    assert_eq!(options.port, 5432);
    assert_eq!(options.username, "postgres");
    assert_eq!(options.password, "password");
    assert_eq!(options.ssl_mode, SslMode::Prefer);
    assert_eq!(options.database, Some("users".to_string()));
    assert!(options.trace_statements);
}
