use soar::environment::{get_topic_prefix, ingest_config_path};
use soar::{nats_client_name, queue_dir, socket_path};

#[test]
fn test_socket_path_production() {
    assert_eq!(socket_path(Some("production"), Some("bob")), "/var/run/soar/run.sock");
}

#[test]
fn test_socket_path_staging() {
    assert_eq!(socket_path(Some("staging"), Some("bob")), "/var/run/soar/run.sock");
}

#[test]
fn test_socket_path_dev() {
    let user = "bob";
    let expected = format!("/tmp/soar-{}/run.sock", user);
    assert_eq!(socket_path(None, Some(user)), expected);
    assert_eq!(socket_path(None, None), "/tmp/soar-default/run.sock");
}

#[test]
fn test_socket_path_dev_other() {
    let user = "carol";
    let expected = format!("/tmp/soar-{}/run.sock", user);
    assert_eq!(socket_path(Some("development"), Some(user)), expected);
}

#[test]
fn test_nats_client_name_production() {
    assert_eq!(nats_client_name(Some("production"), "web"), "soar-web");
    assert_eq!(nats_client_name(Some("production"), "run"), "soar-run");
}

#[test]
fn test_nats_client_name_staging() {
    assert_eq!(nats_client_name(Some("staging"), "web"), "soar-web-staging");
    assert_eq!(
        nats_client_name(Some("staging"), "aprs-ingester"),
        "soar-aprs-ingester-staging"
    );
}

#[test]
fn test_nats_client_name_dev_unset() {
    assert_eq!(nats_client_name(None, "web"), "soar-web-dev");
    assert_eq!(nats_client_name(None, "run"), "soar-run-dev");
}

#[test]
fn test_nats_client_name_dev_other() {
    assert_eq!(nats_client_name(Some("development"), "web"), "soar-web-dev");
    assert_eq!(
        nats_client_name(Some("local"), "beast-ingester"),
        "soar-beast-ingester-dev"
    );
}

#[test]
fn queue_dir_by_environment() {
    assert_eq!(queue_dir(Some("production"), Some("/x"), Some("/h")), "/var/lib/soar/queues");
    assert_eq!(queue_dir(None, Some("/data"), Some("/h")), "/data/soar/queues");
    assert_eq!(queue_dir(None, None, Some("/home/al")), "/home/al/.local/share/soar/queues");
    assert_eq!(queue_dir(Some("dev"), None, None), "/tmp/.local/share/soar/queues");
}

#[test]
fn ingest_config_path_by_environment() {
    assert_eq!(ingest_config_path(Some("/etc/x.toml"), Some("production")), "/etc/x.toml");
    assert_eq!(ingest_config_path(None, Some("staging")), "/etc/soar/ingest.toml");
    assert_eq!(ingest_config_path(None, None), "./ingest.toml");
}

#[test]
fn topic_prefix_by_environment() {
    assert_eq!(get_topic_prefix(Some("production")), "aircraft");
    assert_eq!(get_topic_prefix(Some("staging")), "staging.aircraft");
    assert_eq!(get_topic_prefix(None), "staging.aircraft");
}
