use rusty_docker::errors::DockerErrorKind;
use rusty_docker::settings::ConfigManager;
use rusty_docker::types::{EndpointStatus, EndpointType, Timestamp};
use sha2::{Digest, Sha256};

fn sha_hex(text: &str) -> String {
    let digest = Sha256::digest(text.as_bytes());
    digest.iter().map(|b| format!("{:02x}", b)).collect()
}

#[test]
fn config_manager_paths() {
    assert_eq!(ConfigManager::get_default_data_dir(), "/var/lib/rusty-docker");
    assert_eq!(ConfigManager::get_config_path(), "/etc/rusty-docker/config.toml");
    let m = ConfigManager::new();
    assert_eq!(m.config_file_of("c1"), "/var/lib/rusty-docker/configs/c1.toml");
    assert_eq!(m.secret_file_of("s1"), "/var/lib/rusty-docker/secrets/s1.toml");
    assert_eq!(m.secret_data_file_of("s1"), "/var/lib/rusty-docker/secrets/s1.data");
    assert_eq!(m.endpoint_file_of("e1"), "/var/lib/rusty-docker/endpoints/e1.toml");
    assert_eq!(m.config_path(), "/etc/rusty-docker/config.toml");
    let (c, s, e) = m.directories();
    assert_eq!(c, "/var/lib/rusty-docker/configs");
    assert_eq!(s, "/var/lib/rusty-docker/secrets");
    assert_eq!(e, "/var/lib/rusty-docker/endpoints");
}

#[test]
fn ids_hash_content_and_time() {
    let id = ConfigManager::generate_id("hello", 42);
    assert_eq!(id, sha_hex("hello42"));
    assert_eq!(id.len(), 64);
    assert_ne!(id, ConfigManager::generate_id("hello", 43));
}

#[test]
fn configs_and_secrets() {
    let m = ConfigManager::new();
    let now = Timestamp { secs: 7, nanos: 0 };
    let c = m.create_config("app", "k=v", vec![("a".to_string(), "b".to_string())], now);
    assert_eq!(c.id, sha_hex("appk=v7"));
    assert_eq!(c.data, "k=v");
    let mut c2 = c.clone();
    m.update_config(&mut c2, "k=w", vec![]);
    assert_eq!(c2.id, c.id);
    assert_eq!(c2.data, "k=w");
    assert!(c2.labels.is_empty());
    let s = m.create_secret("pw", "secret", vec![], now);
    assert_eq!(s.id, sha_hex("pwsecret7"));
    assert_eq!(s.digest, sha_hex("secret7"));
}

#[test]
fn endpoints() {
    let m = ConfigManager::new();
    let now = Timestamp { secs: 9, nanos: 0 };
    let mut e = m.create_endpoint("prod", EndpointType::Remote, "tcp://h:2376", true, None, None, None, None, vec![], now);
    assert_eq!(e.config.id, sha_hex("prodtcp://h:2376remote9"));
    assert!(matches!(e.status, EndpointStatus::Disconnected));
    m.update_endpoint(&mut e, "prod2", "tcp://h:2377", false, None, None, None, Some("t".to_string()), vec![]);
    assert_eq!(e.config.name, "prod2");
    assert_eq!(e.config.endpoint_type, EndpointType::Remote);
    assert_eq!(e.config.auth_token, Some("t".to_string()));
    assert!(matches!(m.test_endpoint_connection(&e.config.id), Ok(EndpointStatus::Connected)));
}

#[test]
fn missing_objects() {
    let e = ConfigManager::missing("config", "Config", "c9");
    match *e.kind {
        DockerErrorKind::ResourceNotFound { resource_type, identifier } => {
            assert_eq!(resource_type, "config");
            assert_eq!(identifier, "Config c9 not found");
        }
        other => panic!("unexpected error {:?}", other),
    }
}
