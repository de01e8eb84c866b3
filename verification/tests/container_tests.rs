use ruku::container::{Container, ContainerState, EngineAction};
use ruku::logger::Logger;
use ruku::model::Config;

fn reconciler_config(port: u16) -> Config {
    Config {
        port: Some(port),
        version: None,
    }
}

#[test]
fn state_strings_parse_into_the_closed_union() {
    assert_eq!(ContainerState::parse("created"), Some(ContainerState::Created));
    assert_eq!(ContainerState::parse("paused"), Some(ContainerState::Paused));
    assert_eq!(ContainerState::parse("running"), Some(ContainerState::Running));
    assert_eq!(
        ContainerState::parse("restarting"),
        Some(ContainerState::Restarting)
    );
    assert_eq!(
        ContainerState::parse("removing"),
        Some(ContainerState::Removing)
    );
    assert_eq!(ContainerState::parse("exited"), Some(ContainerState::Exited));
    assert_eq!(ContainerState::parse("dead"), Some(ContainerState::Dead));
    assert_eq!(ContainerState::parse("empty"), None);
    assert_eq!(ContainerState::parse(""), None);
    assert_eq!(ContainerState::parse("Running"), None);
}

#[test]
fn absent_container_is_created_then_started() {
    let log = Logger::new();
    let config = reconciler_config(8080);
    let container = Container::new(&log, "app", &config);
    assert_eq!(
        container.plan(None),
        vec![EngineAction::Create, EngineAction::Start]
    );
}

#[test]
fn stopped_containers_are_restarted_in_place_without_remove() {
    let log = Logger::new();
    let config = reconciler_config(8080);
    let container = Container::new(&log, "app", &config);
    for state in [ContainerState::Created, ContainerState::Paused] {
        let plan = container.plan(Some(state));
        assert_eq!(plan, vec![EngineAction::Stop, EngineAction::Start]);
        assert!(!plan.contains(&EngineAction::Remove));
    }
}

#[test]
fn live_containers_are_removed_before_a_fresh_create() {
    let log = Logger::new();
    let config = reconciler_config(8080);
    let container = Container::new(&log, "app", &config);
    for state in [ContainerState::Running, ContainerState::Restarting] {
        assert_eq!(
            container.plan(Some(state)),
            vec![
                EngineAction::Stop,
                EngineAction::Remove,
                EngineAction::Create,
                EngineAction::Start
            ]
        );
    }
    for state in [ContainerState::Exited, ContainerState::Dead] {
        assert_eq!(
            container.plan(Some(state)),
            vec![EngineAction::Remove, EngineAction::Create, EngineAction::Start]
        );
    }
}

#[test]
fn removing_container_is_not_raced() {
    let log = Logger::new();
    let config = reconciler_config(8080);
    let container = Container::new(&log, "app", &config);
    assert_eq!(
        container.plan(Some(ContainerState::Removing)),
        vec![EngineAction::Start]
    );
}

#[test]
fn create_request_binds_the_port_one_to_one() {
    let log = Logger::new();
    let config = reconciler_config(8080);
    let container = Container::new(&log, "app", &config);
    let request = container.create_request("app:v1".to_string());
    assert_eq!(request.name, "app");
    assert_eq!(request.image, "app:v1");
    assert_eq!(request.exposed_port, "8080/tcp");
    assert_eq!(request.host_port, "8080");
}

#[test]
fn create_request_renders_extreme_ports() {
    let log = Logger::new();
    let config = reconciler_config(65535);
    let container = Container::new(&log, "app", &config);
    let request = container.create_request("app:latest".to_string());
    assert_eq!(request.exposed_port, "65535/tcp");
    assert_eq!(request.host_port, "65535");
}
