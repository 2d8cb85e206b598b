use rusty_docker::errors::DockerError;
use rusty_docker::image::{calculate_digest, parse_image_reference, ImageStore};

#[test]
fn test_parse_image_reference() {
    let cases = [
        ("ubuntu", ("docker.io", "ubuntu", "latest")),
        ("ubuntu:latest", ("docker.io", "ubuntu", "latest")),
        ("docker.io/ubuntu", ("docker.io", "ubuntu", "latest")),
        ("docker.io/ubuntu:20.04", ("docker.io", "ubuntu", "20.04")),
        ("localhost:5000/ubuntu", ("localhost:5000", "ubuntu", "latest")),
    ];

    for (input, expected) in cases {
        let (registry, repo, tag) = parse_image_reference(input).unwrap();
        assert_eq!(registry, expected.0);
        assert_eq!(repo, expected.1);
        assert_eq!(tag, expected.2);
    }
}

#[test]
fn parse_image_reference_keeps_nested_repository() {
    let (registry, repo, tag) = parse_image_reference("ghcr.io/org/app:v2").unwrap();
    assert_eq!(registry, "ghcr.io");
    assert_eq!(repo, "org/app");
    assert_eq!(tag, "v2");
    // A first segment without '.' or ':' is part of the repository.
    let (registry, repo, tag) = parse_image_reference("library/ubuntu").unwrap();
    assert_eq!(registry, "docker.io");
    assert_eq!(repo, "library/ubuntu");
    assert_eq!(tag, "latest");
}

#[test]
fn digest_of_empty_content() {
    assert_eq!(
        calculate_digest(b""),
        "sha256:e3b0c44298fc1c149afbf4c8996fb92427ae41e4649b934ca495991b7852b855"
    );
    assert_eq!(
        calculate_digest(b"abc"),
        "sha256:ba7816bf8f01cfea414140de5dae2223b00361a396177a9cb410ff61f20015ad"
    );
}

#[test]
fn image_store_paths() {
    let store = ImageStore::new("/var/lib/images");
    assert_eq!(store.manifest_path("abc"), "/var/lib/images/manifests/abc.json");
    assert_eq!(store.config_path("cfg"), "/var/lib/images/blobs/cfg.json");
    assert_eq!(store.layer_path("l1"), "/var/lib/images/layers/l1");
}

#[test]
fn error_keys_share_the_docker_error_prefix() {
    let errors = vec![
        DockerError::invalid_format("f", "int"),
        DockerError::invalid_credentials(),
        DockerError::token_expired(),
        DockerError::not_found("container", "c1"),
        DockerError::storage_read_failed("/x"),
        DockerError::config_missing("k"),
        DockerError::internal("boom"),
        DockerError::container_error("bad"),
    ];
    for e in &errors {
        assert!(e.i18n_key().starts_with("docker.error."), "{}", e.i18n_key());
        assert_eq!(e.i18n_key(), e.kind.i18n_key());
    }
    assert_eq!(DockerError::token_expired().i18n_key(), "docker.error.auth.token_expired");
}
