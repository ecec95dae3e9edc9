use movies_api::configuration::{
    environment_from_var, DatabaseSettings, Environment, SslMode,
};
use movies_api::utils::error_chain_fmt;

#[test]
fn environment_names() {
    assert_eq!(Environment::Local.as_str(), "local");
    assert_eq!(Environment::Production.as_str(), "production");
}

#[test]
fn environment_try_from_any_case() {
    assert_eq!(Environment::try_from("LOCAL".to_string()), Ok(Environment::Local));
    assert_eq!(Environment::try_from("Production".to_string()), Ok(Environment::Production));
    assert_eq!(
        Environment::try_from("Staging".to_string()),
        Err("staging is not a supported environment. Use either `local` or `production`.".to_string())
    );
}

#[test]
fn environment_roundtrip() {
    for e in [Environment::Local, Environment::Production] {
        assert_eq!(Environment::from_lowercase(e.as_str()), Ok(e));
    }
}

#[test]
fn environment_parses_its_own_name() {
    for e in [Environment::Local, Environment::Production] {
        assert_eq!(Environment::try_from(e.as_str().to_string()), Ok(e));
        assert_eq!(e.as_str().to_lowercase(), e.as_str());
    }
    assert_ne!(Environment::Local.as_str(), Environment::Production.as_str());
}

#[test]
fn environment_from_variable() {
    assert_eq!(environment_from_var(None), Ok(Environment::Local));
    assert_eq!(environment_from_var(Some("production".to_string())), Ok(Environment::Production));
    assert!(environment_from_var(Some("".to_string())).is_err());
}

fn db(require_ssl: bool) -> DatabaseSettings {
    DatabaseSettings {
        username: "postgres".to_string(),
        password: "SECRET-REDACTED".to_string(),
        host: "localhost".to_string(),
        port: 5432,
        database_name: "movies".to_string(),
        require_ssl,
        max_connections: 10,
    }
}

#[test]
fn connect_options() {
    let o = db(true).without_db();
    assert_eq!(o.ssl_mode, SslMode::Require);
    assert_eq!(o.host, "localhost");
    assert_eq!(o.username, "postgres");
    assert_eq!(o.port, 5432);
    assert_eq!(o.database, None);
    let o = db(false).with_db();
    assert_eq!(o.ssl_mode, SslMode::Prefer);
    assert_eq!(o.database, Some("movies".to_string()));
}

#[test]
fn error_chain_report() {
    assert_eq!(error_chain_fmt("outer", &vec![]), "outer\n\n");
    assert_eq!(
        error_chain_fmt("outer", &vec!["middle".to_string(), "inner".to_string()]),
        "outer\n\nCaused by:\n\tmiddle\nCaused by:\n\tinner\n"
    );
}
