use rusty_docker::buildx::BuilderManager;
use rusty_docker::credentials::{auth_entry, credentials_from_auth, CredentialError, CredentialStore};

#[test]
fn builder_manager_starts_with_default_in_use() {
    let m = BuilderManager::new();
    let b = m.get_current().unwrap();
    assert_eq!(b.name, "default");
    assert_eq!(b.driver, "docker");
    assert_eq!(b.status, "running");
}

#[test]
fn created_builder_can_be_used_and_removed() {
    let mut m = BuilderManager::new();
    let name = m.create(Some("mybuilder"), "docker-container", &vec![], &vec!["linux/arm64".to_string()]);
    assert_eq!(name, "mybuilder");
    assert!(m.use_builder("mybuilder"));
    assert_eq!(m.get_current().unwrap().name, "mybuilder");
    assert_eq!(m.get_current().unwrap().platforms, vec!["linux/arm64".to_string()]);
    assert!(!m.remove("mybuilder", false));
    assert!(m.remove("mybuilder", true));
    assert_eq!(m.get_current().unwrap().name, "default");
    assert!(!m.use_builder("mybuilder"));
}

#[test]
fn unnamed_builder_gets_a_generated_name() {
    let mut m = BuilderManager::new();
    let name = m.create(None, "docker", &vec![], &vec![]);
    assert!(name.starts_with("builder-"));
    assert_eq!(name.len(), 44);
    assert!(m.inspect(Some(name.as_str())).is_ok());
}

#[test]
fn inspecting_a_missing_builder_fails() {
    let m = BuilderManager::new();
    assert_eq!(m.inspect(Some("ghost")).unwrap_err(), "Builder 'ghost' not found");
    assert_eq!(m.inspect(None).unwrap().name, "default");
}

#[test]
fn upgrade_sets_the_newer_buildkit() {
    let mut m = BuilderManager::new();
    assert!(m.upgrade(None));
    assert_eq!(m.get_current().unwrap().buildkit_version, "v0.12.0");
    assert!(!m.upgrade(Some("missing")));
}

#[test]
fn listing_stars_the_builder_in_use() {
    let m = BuilderManager::new();
    let lines = m.list();
    assert!(lines[0].starts_with("NAME/NODE"));
    assert!(lines[1].starts_with("default *"));
}

#[test]
fn auth_entry_is_base64_of_user_and_password() {
    assert_eq!(auth_entry("user", "pass"), "dXNlcjpwYXNz");
}

#[test]
fn stored_credentials_are_read_back() {
    let store = CredentialStore::new("/home/me");
    assert_eq!(store.path, "/home/me/.docker/config.json");
    let mut auths: Vec<(String, String)> = Vec::new();
    store.store(&mut auths, "registry.example.com", "user", "pa:ss");
    assert_eq!(
        store.get(&auths, "registry.example.com").unwrap(),
        Some(("user".to_string(), "pa:ss".to_string()))
    );
    assert_eq!(store.get(&auths, "other").unwrap(), None);
    assert_eq!(store.list(&auths), vec![("registry.example.com".to_string(), String::new())]);
    store.erase(&mut auths, "registry.example.com");
    assert!(auths.is_empty());
}

#[test]
fn invalid_auth_entries_are_reported() {
    assert_eq!(credentials_from_auth("!!not base64!!"), Err(CredentialError::InvalidBase64));
    assert_eq!(credentials_from_auth("/w=="), Err(CredentialError::InvalidUtf8));
    assert_eq!(credentials_from_auth("bm9jb2xvbg=="), Ok(None));
}

#[test]
fn removing_a_new_builder_restores_the_list() {
    let mut m = BuilderManager::new();
    let before = m.list();
    m.create(Some("temp"), "docker", &vec![], &vec![]);
    assert_ne!(m.list(), before);
    assert!(m.remove("temp", false));
    assert_eq!(m.list(), before);
}
