use ruku::container::Container;
use ruku::deploy::Deploy;
use ruku::errors::RukuError;
use ruku::logger::Logger;
use ruku::model::Config;

#[test]
fn deployment_without_a_port_fails_fast() {
    let log = Logger::new();
    let config = Config {
        port: None,
        version: Some("v1".to_string()),
    };
    let container = Container::new(&log, "app", &config);
    let deploy = Deploy::new(&log, "app", "/home/deploy/apps/app", &config, &container);
    assert_eq!(deploy.run(), Err(RukuError::PortUnavailable));
}

#[test]
fn deployment_plan_names_the_tagged_image() {
    let log = Logger::new();
    let config = Config {
        port: Some(3000),
        version: Some("v1".to_string()),
    };
    let container = Container::new(&log, "app", &config);
    let deploy = Deploy::new(&log, "app", "/home/deploy/apps/app", &config, &container);
    let plan = deploy.run().expect("a port is configured");
    assert_eq!(plan.image, "app:v1");
    assert_eq!(plan.port, 3000);
    assert_eq!(plan.build.name, "app");
    assert_eq!(plan.build.path, "/home/deploy/apps/app");
    assert_eq!(plan.build.tags, vec!["app:v1".to_string()]);
    assert!(plan.build.current_dir);
}

#[test]
fn deployment_plan_defaults_the_tag_to_latest() {
    let log = Logger::new();
    let config = Config {
        port: Some(8080),
        version: None,
    };
    let container = Container::new(&log, "app", &config);
    let deploy = Deploy::new(&log, "app", "/srv/app", &config, &container);
    let plan = deploy.run().expect("a port is configured");
    assert_eq!(plan.image, "app:latest");
    assert_eq!(plan.build.tags, vec!["app:latest".to_string()]);
}

#[test]
fn error_descriptions_name_the_failing_step() {
    assert_eq!(
        RukuError::ConfigMissing.describe(),
        "ruku.yml file is missing in the repository"
    );
    assert_eq!(
        RukuError::ConfigParseError {
            message: "bad".to_string()
        }
        .describe(),
        "Error parsing ruku.yml file: bad"
    );
    assert_eq!(
        RukuError::ConfigInvalid {
            field: "port".to_string(),
            reason: "port is already in use".to_string()
        }
        .describe(),
        "Error validating ruku.yml file: port: port is already in use"
    );
    assert_eq!(
        RukuError::GitOperationFailed {
            step: "git init".to_string()
        }
        .describe(),
        "Error executing git step: git init"
    );
    assert_eq!(
        RukuError::EngineCallFailed {
            operation: "stop".to_string()
        }
        .describe(),
        "Failed to stop container"
    );
    assert_eq!(
        RukuError::BuildFailed {
            message: "no plan".to_string()
        }
        .describe(),
        "Error creating Docker image: no plan"
    );
    assert_eq!(
        RukuError::PortUnavailable.describe(),
        "No port specified, skipping deployment"
    );
}
