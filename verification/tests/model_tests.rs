use ruku::errors::RukuError;
use ruku::model::{resolve_manifest, ManifestFile, RukuConfig};

#[test]
fn port_below_user_range_is_rejected_before_any_probe() {
    let file = ManifestFile::Parsed {
        config: RukuConfig {
            port: 80,
            version: Some("v1".to_string()),
        },
    };
    match resolve_manifest(file) {
        Err(RukuError::ConfigInvalid { field, .. }) => assert_eq!(field, "port"),
        other => panic!("expected ConfigInvalid on the port, got {:?}", other),
    }
}

#[test]
fn port_1023_is_rejected_and_1024_is_in_range() {
    let low = RukuConfig {
        port: 1023,
        version: None,
    };
    match low.validate_with_probe(true) {
        Err(RukuError::ConfigInvalid { field, .. }) => assert_eq!(field, "port"),
        other => panic!("expected ConfigInvalid on the port, got {:?}", other),
    }
    let edge = RukuConfig {
        port: 1024,
        version: None,
    };
    assert_eq!(edge.validate_with_probe(true), Ok(()));
}

#[test]
fn bound_port_is_rejected_as_in_use() {
    let config = RukuConfig {
        port: 8080,
        version: None,
    };
    match config.validate_with_probe(false) {
        Err(RukuError::ConfigInvalid { field, reason }) => {
            assert_eq!(field, "port");
            assert_eq!(reason, "port is already in use");
        }
        other => panic!("expected ConfigInvalid on the port, got {:?}", other),
    }
}

#[test]
fn version_length_bounds_are_enforced() {
    let empty = RukuConfig {
        port: 8080,
        version: Some(String::new()),
    };
    match empty.validate_with_probe(true) {
        Err(RukuError::ConfigInvalid { field, .. }) => assert_eq!(field, "version"),
        other => panic!("expected ConfigInvalid on the version, got {:?}", other),
    }
    let long = RukuConfig {
        port: 8080,
        version: Some("a".repeat(21)),
    };
    match long.validate_with_probe(true) {
        Err(RukuError::ConfigInvalid { field, .. }) => assert_eq!(field, "version"),
        other => panic!("expected ConfigInvalid on the version, got {:?}", other),
    }
    let at_limit = RukuConfig {
        port: 8080,
        version: Some("a".repeat(20)),
    };
    assert_eq!(at_limit.validate_with_probe(true), Ok(()));
    let one = RukuConfig {
        port: 8080,
        version: Some("v".to_string()),
    };
    assert_eq!(one.validate_with_probe(true), Ok(()));
}

#[test]
fn missing_manifest_fails_with_config_missing() {
    assert_eq!(
        resolve_manifest(ManifestFile::Missing),
        Err(RukuError::ConfigMissing)
    );
}

#[test]
fn unparsable_manifest_carries_the_parser_message() {
    let file = ManifestFile::Unparsable {
        message: "mapping values are not allowed".to_string(),
    };
    match resolve_manifest(file) {
        Err(RukuError::ConfigParseError { message }) => {
            assert_eq!(message, "mapping values are not allowed")
        }
        other => panic!("expected ConfigParseError, got {:?}", other),
    }
}

#[test]
fn resolution_agrees_with_the_host_port_probe() {
    // The probe's answer depends on the host, so compare against a direct
    // probe of the same port rather than assuming the port is free.
    let port: u16 = 38123;
    let free = port_selector::is_free(port);
    let file = ManifestFile::Parsed {
        config: RukuConfig {
            port,
            version: Some("v1".to_string()),
        },
    };
    match resolve_manifest(file) {
        Ok(config) => {
            assert!(free);
            assert_eq!(config.port, port);
            assert_eq!(config.version, Some("v1".to_string()));
        }
        Err(RukuError::ConfigInvalid { field, reason }) => {
            assert!(!free);
            assert_eq!(field, "port");
            assert_eq!(reason, "port is already in use");
        }
        other => panic!("expected Ok or ConfigInvalid on the port, got {:?}", other),
    }
}

#[test]
fn manifest_induces_deploy_settings() {
    let config = RukuConfig {
        port: 3000,
        version: Some("v2".to_string()),
    };
    let deploy = config.to_deploy_config();
    assert_eq!(deploy.port, Some(3000));
    assert_eq!(deploy.version, Some("v2".to_string()));
}
