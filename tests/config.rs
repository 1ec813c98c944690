use mlflow_rs::{Config, ConfigBuilder, MLFlowError};

#[test]
fn test_tracking_server_uri() {
    let cb = ConfigBuilder::default().with_tracking_server_uri("http://localhost:5001");
    assert!(cb.tracking_server_uri.is_some());
    assert_eq!(cb.tracking_server_uri.unwrap(), "http://localhost:5001");
}

#[test]
fn test_default_config() {
    let cfg = ConfigBuilder::default().build();
    assert_eq!(cfg.get_tracking_server_uri(), "http://localhost:5000");
}

#[test]
fn test_custom_config() {
    let cfg = ConfigBuilder::default()
        .with_tracking_server_uri("http://localhost:5001")
        .build();
    assert_eq!(cfg.get_client().host(), "http://localhost:5001");
    assert_eq!(cfg.get_tracking_server_uri(), "http://localhost:5001");
}

#[test]
fn test_bad_tracking_server_uri() {
    let cb = ConfigBuilder::default()
        .with_tracking_server_uri("")
        .try_build();
    assert!(cb.is_err());

    assert!(matches!(
            cb.err().unwrap(),
            MLFlowError::ConfigError(s) if s == "empty tracking server uri"
    ));
}

#[test]
fn missing_uri_is_a_config_error() {
    let err = ConfigBuilder { tracking_server_uri: None }.try_build().err().unwrap();
    assert!(matches!(&err, MLFlowError::ConfigError(s) if s == "tracking server uri was not set"));
    assert_eq!(err.to_string(), "tracking server uri was not set");
}

#[test]
fn config_default_starts_at_local_endpoint() {
    let cb = Config::default();
    assert_eq!(cb.tracking_server_uri.as_deref(), Some("http://localhost:5000"));
}

#[test]
fn valid_uri_round_trips() {
    let cfg = Config::default().with_tracking_server_uri("https://mlflow.example").try_build();
    let cfg = cfg.ok().unwrap();
    assert_eq!(cfg.get_tracking_server_uri(), "https://mlflow.example");
    assert_eq!(cfg.get_client().host(), "https://mlflow.example");
}
