use vivi::config::{Config, ConfigError};
use vivi::error::ErrorKind;

fn config() -> Config {
    Config {
        files: vec!["image.png".into()],
        zoom_bits: 1.0_f32.to_bits(),
        endpoint: None,
        bulk_endpoint: None,
        token: None,
        dry_run: true,
        trace_dir: None,
        verbose: false,
        no_wait: false,
    }
}

#[test]
fn dry_run_does_not_require_endpoint_or_token() {
    assert!(config().validate().is_ok());
}

#[test]
fn rejects_invalid_zoom() {
    let mut config = config();
    config.zoom_bits = f32::NAN.to_bits();
    assert!(config.validate().is_err());
}

#[test]
fn zoom_must_be_finite_and_positive() {
    let mut config = config();
    for zoom in [0.0_f32, -0.0, -1.0, f32::INFINITY, f32::NEG_INFINITY] {
        config.zoom_bits = zoom.to_bits();
        assert_eq!(config.validate(), Err(ConfigError::InvalidZoom));
    }
    for zoom in [f32::MIN_POSITIVE, 1.0e-40, 0.5, 2.0, f32::MAX] {
        config.zoom_bits = zoom.to_bits();
        assert_eq!(config.validate(), Ok(()));
    }
}

#[test]
fn connecting_sessions_need_endpoint_then_token() {
    let mut config = config();
    config.dry_run = false;
    assert!(!config.is_dry_run());
    assert_eq!(config.validate(), Err(ConfigError::MissingEndpoint));
    config.token = Some("SECRET-REDACTED".into());
    assert_eq!(config.validate(), Err(ConfigError::MissingEndpoint));
    config.endpoint = Some("unix:/run/vivid.sock".into());
    config.token = None;
    assert_eq!(config.validate(), Err(ConfigError::MissingToken));
    config.token = Some("SECRET-REDACTED".into());
    assert_eq!(config.validate(), Ok(()));
    config.zoom_bits = f32::NAN.to_bits();
    assert_eq!(config.validate(), Err(ConfigError::InvalidZoom));
    assert_eq!(ConfigError::MissingEndpoint.kind(), ErrorKind::NotFound);
    assert_eq!(ConfigError::MissingToken.kind(), ErrorKind::PermissionDenied);
    assert_eq!(ConfigError::InvalidZoom.kind(), ErrorKind::InvalidInput);
}

#[test]
fn trace_directory_implies_dry_run() {
    let mut config = config();
    config.dry_run = false;
    config.trace_dir = Some("/tmp/traces".into());
    assert!(config.is_dry_run());
    assert_eq!(config.validate(), Ok(()));
}
