use rusty_docker::errors::DockerErrorKind;
use rusty_docker::manifest::{
    create_manifest_list, list_manifest_lists, manifest_list_path, modify_manifest_list, parse_platform,
    pull_manifest_list, ImageReference, RegistryClient,
};
use rusty_docker::registry::{
    download_progress, push_image, token_refusal,
    blob_url, check_download_size, fetch_step, image_info_from_manifest, layer_file, layer_plan, manifest_url,
    range_header, token_url, total_layer_size, FetchKind, FetchOutcome, FetchStep, ImageManifest, LayerPlan,
    ManifestConfig, ManifestLayer,
};
use rusty_docker::types::Timestamp;

#[test]
fn token_url_from_challenge() {
    let h = "Bearer realm=\"https://auth.docker.io/token\",service=\"registry.docker.io\"";
    assert_eq!(
        token_url(h, "library/ubuntu").unwrap(),
        "https://auth.docker.io/token?service=registry.docker.io&scope=repository:library/ubuntu/pull"
    );
    let h2 = "Bearer realm=\"r\",service=\"s\",scope=\"custom\"";
    assert_eq!(token_url(h2, "x").unwrap(), "r?service=s&scope=custom");
    assert!(token_url("Basic realm=\"r\"", "x").is_err());
    assert!(token_url("Bearer realm=\"r\"", "x").is_err());
}

#[test]
fn registry_urls_and_headers() {
    assert_eq!(manifest_url("https://r", "lib/a", "1"), "https://r/v2/lib/a/manifests/1");
    assert_eq!(blob_url("https://r", "lib/a", "sha256:x"), "https://r/v2/lib/a/blobs/sha256:x");
    assert_eq!(range_header(1024), "bytes=1024-");
    assert_eq!(layer_file("/data", "sha256:abc"), "/data/layers/abc");
}

#[test]
fn fetches_retry_then_fail() {
    match fetch_step(FetchKind::Manifest, "u", 0, FetchOutcome::Transport("reset".to_string())) {
        FetchStep::Retry { delay_secs } => assert_eq!(delay_secs, 1),
        other => panic!("unexpected step {:?}", other),
    }
    match fetch_step(FetchKind::Manifest, "u", 1, FetchOutcome::Transport("reset".to_string())) {
        FetchStep::Retry { delay_secs } => assert_eq!(delay_secs, 2),
        other => panic!("unexpected step {:?}", other),
    }
    match fetch_step(FetchKind::Manifest, "u", 2, FetchOutcome::Transport("reset".to_string())) {
        FetchStep::Fail(e) => match *e.kind {
            DockerErrorKind::RequestError { url, reason } => {
                assert_eq!(url, "u");
                assert_eq!(reason, "reset");
            }
            other => panic!("unexpected error {:?}", other),
        },
        other => panic!("unexpected step {:?}", other),
    }
    let challenge = FetchOutcome::Answered { status: 401, success: false, www_authenticate: Some("Bearer x".to_string()) };
    assert!(matches!(fetch_step(FetchKind::Layer, "u", 0, challenge), FetchStep::Authenticate { .. }));
    let partial = FetchOutcome::Answered { status: 206, success: false, www_authenticate: None };
    assert!(matches!(fetch_step(FetchKind::LayerRange, "u", 0, partial), FetchStep::Accept));
    let missing = FetchOutcome::Answered { status: 404, success: false, www_authenticate: None };
    match fetch_step(FetchKind::Manifest, "u", 0, missing) {
        FetchStep::Fail(e) => match *e.kind {
            DockerErrorKind::RegistryError { reason } => assert_eq!(reason, "Failed to get manifest: 404"),
            other => panic!("unexpected error {:?}", other),
        },
        other => panic!("unexpected step {:?}", other),
    }
}

#[test]
fn layer_downloads() {
    assert_eq!(layer_plan(0, 10), LayerPlan::Full);
    assert_eq!(layer_plan(4, 10), LayerPlan::Resume(4));
    assert_eq!(layer_plan(10, 10), LayerPlan::Skip);
    assert!(check_download_size(5, 5).is_ok());
    match *check_download_size(5, 3).unwrap_err().kind {
        DockerErrorKind::RegistryError { reason } => assert_eq!(reason, "Download size mismatch: expected 5, got 3"),
        other => panic!("unexpected error {:?}", other),
    }
}

#[test]
fn image_from_manifest() {
    let layer = |size: u64| ManifestLayer { media_type: "t".to_string(), size, digest: "d".to_string() };
    let m = ImageManifest {
        architecture: "amd64".to_string(),
        os: "linux".to_string(),
        config: ManifestConfig { media_type: "c".to_string(), size: 1, digest: "sha256:cfg".to_string() },
        layers: vec![layer(10), layer(32)],
    };
    assert_eq!(total_layer_size(&m.layers), 42);
    let info = image_info_from_manifest(&m, "ubuntu", "22.04", Timestamp { secs: 5, nanos: 0 });
    assert_eq!(info.id, "sha256:cfg");
    assert_eq!(info.name, "ubuntu:22.04");
    assert_eq!(info.tags, vec!["ubuntu:22.04".to_string()]);
    assert_eq!(info.size, 42);
}

#[test]
fn image_references_of_manifest_lists() {
    let r = ImageReference::from_str("registry.example.com/team/app:1.0").unwrap();
    assert_eq!(r.registry, Some("registry.example.com".to_string()));
    assert_eq!(r.repository, "team/app");
    assert_eq!(r.tag, Some("1.0".to_string()));
    let r = ImageReference::from_str("app").unwrap();
    assert_eq!(r.registry, None);
    assert_eq!(r.repository, "app");
    assert_eq!(r.tag, None);
    assert_eq!(RegistryClient::new(Some("r.io")).base_url, "https://r.io");
    assert_eq!(RegistryClient::new(None).base_url, "https://registry-1.docker.io");
}

#[test]
fn platforms() {
    let p = parse_platform("windows/amd64/osversion=10.0.17763/variant=v8").unwrap();
    assert_eq!(p.os, "windows");
    assert_eq!(p.architecture, "amd64");
    assert_eq!(p.os_version, Some("10.0.17763".to_string()));
    assert_eq!(p.variant, Some("v8".to_string()));
    assert_eq!(parse_platform("linux").unwrap_err(), "Invalid platform format");
}

#[test]
fn manifest_lists() {
    let images = vec!["a:1".to_string(), "b:1".to_string(), "c:1".to_string()];
    let platforms = vec!["linux/arm64".to_string()];
    let l = create_manifest_list("multi", &images, &platforms).unwrap();
    assert_eq!(l.schema_version, 2);
    assert_eq!(l.manifests.len(), 3);
    assert_eq!(l.manifests[0].platform.architecture, "arm64");
    assert_eq!(l.manifests[1].platform.architecture, "amd64");
    assert_eq!(l.manifests[2].digest, "sha256:2");
    assert!(create_manifest_list("m", &images, &vec!["bad".to_string()]).is_err());
    let pulled = pull_manifest_list("multi", Some("linux/arm64")).unwrap();
    assert_eq!(pulled.manifests.len(), 1);
    assert_eq!(pulled.manifests[0].platform.architecture, "arm64");
    assert_eq!(pull_manifest_list("multi", None).unwrap().manifests.len(), 2);
    let edited = modify_manifest_list(l, &vec!["d:1".to_string()], &vec![]);
    assert_eq!(edited.manifests.len(), 4);
    assert_eq!(edited.manifests[3].digest, "sha256:3");
    let edited = modify_manifest_list(edited, &vec![], &vec!["x".to_string()]);
    assert_eq!(edited.manifests.len(), 3);
    assert_eq!(manifest_list_path("org/app"), "org_app.json");
    assert_eq!(list_manifest_lists(None).unwrap().len(), 0);
    assert_eq!(list_manifest_lists(Some("repo")).unwrap().len(), 2);
}

#[test]
fn download_progress_counts_the_bytes_on_disk() {
    let layer = |size: u64| ManifestLayer { media_type: "t".to_string(), size, digest: "d".to_string() };
    let layers = vec![layer(100), layer(50), layer(25)];
    assert_eq!(download_progress(&layers, &vec![Some(100), None, Some(10)]), (110, 175));
    assert_eq!(download_progress(&vec![], &vec![]), (0, 0));
}

#[test]
fn push_reports_the_pushed_image() {
    let info = push_image("library/nginx", "1.25", Timestamp { secs: 5, nanos: 0 });
    assert_eq!(info.id.len(), 36);
    assert_eq!(info.name, "library/nginx");
    assert_eq!(info.tags, vec!["library/nginx:1.25".to_string()]);
    assert_eq!(info.size, 100 * 1024 * 1024);
    assert_eq!(info.architecture, "amd64");
    assert_eq!(info.os, "linux");
}

#[test]
fn token_refusal_names_the_status() {
    match *token_refusal(403).kind {
        DockerErrorKind::RegistryError { reason } => assert_eq!(reason, "Failed to get auth token: 403"),
        other => panic!("unexpected error {:?}", other),
    }
}
