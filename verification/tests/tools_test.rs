use rusty_docker::daemon::{
    build_request_of_body, create_request_of_body, pull_request_of_body, create_request, bad_request_response, http_ok_response, port_binding, route_request, unroutable_answer, Route,
};
use rusty_docker::errors::DockerErrorKind;
use rusty_docker::storage::{join_path, OverlayDriver, StorageManager};
use rusty_docker::tools::{
    get_default_config, log_level_for, parse_dockerignore, should_ignore, BuildContext,
    retry_async_step, ImageManager, RetryStep,
};
use rusty_docker::types::Timestamp;

#[test]
fn test_storage_manager_paths() {
    let m = StorageManager::new(Some("/home/user")).unwrap();
    assert_eq!(m.containers_path(), "/home/user/.docker-crab/containers");
    assert_eq!(m.container_path("abc"), "/home/user/.docker-crab/containers/abc");
    assert_eq!(m.images_path(), "/home/user/.docker-crab/images");
    assert_eq!(m.volume_path("v"), "/home/user/.docker-crab/volumes/v");
    assert_eq!(m.tmp_path(), "/home/user/.docker-crab/tmp");
    assert_eq!(m.directories().len(), 5);
    assert_eq!(m.unmount_layer("/mnt/x"), "umount /mnt/x");
    assert_eq!(m.delete_layer("l1"), "/var/lib/rusty-docker/overlay/l1");
    match *StorageManager::new(None).unwrap_err().kind {
        DockerErrorKind::ConfigMissing { key } => assert_eq!(key, "HOME"),
        other => panic!("unexpected error {:?}", other),
    }
}

#[test]
fn paths_join_like_std() {
    assert_eq!(join_path("/a", "b"), "/a/b");
    assert_eq!(join_path("/a/", "b"), "/a/b");
    assert_eq!(join_path("/a", "/b"), "/b");
    assert_eq!(join_path("", "b"), "b");
}

#[test]
fn overlay_layers() {
    let d = OverlayDriver::new("/ov");
    assert_eq!(
        d.create_layer("l1"),
        vec!["/ov/l1", "/ov/l1/lower", "/ov/l1/upper", "/ov/l1/work", "/ov/l1/merged"]
    );
    assert_eq!(
        d.mount_layer("l1", "/mnt/c"),
        "mount -t overlay overlay -o lowerdir=/ov/l1/lower,upperdir=/ov/l1/upper,workdir=/ov/l1/work /mnt/c"
    );
    assert_eq!(d.parent_link("l2", "l1"), ("/ov/l1/merged".to_string(), "/ov/l2/lower/parent".to_string()));
}

#[test]
fn first_matching_pattern_decides_before_an_invalid_one() {
    let ctx = BuildContext::new("/ctx", true, Some("*.log\n[bad")).unwrap();
    assert_eq!(ctx.try_is_ignored("/ctx/app.log"), Some(true));
    assert!(ctx.is_ignored("/ctx/app.log"));
    assert_eq!(ctx.try_is_ignored("/ctx/main.rs"), None);
    assert_eq!(ctx.try_is_ignored("/elsewhere/main.rs"), Some(false));
    assert!(ctx.copy_file_source("main.rs", true).is_none());
    assert!(ctx.copy_file_source("app.log", true).unwrap().is_err());
    let bad_first = BuildContext::new("/ctx", true, Some("[bad\n*.log")).unwrap();
    assert_eq!(bad_first.try_is_ignored("/ctx/app.log"), None);
}

#[test]
fn test_dockerignore_patterns() {
    let ctx = BuildContext::new("/ctx", true, Some("ignored.txt\n*.log")).unwrap();
    assert!(!ctx.is_ignored("/ctx/test.txt"));
    assert!(ctx.is_ignored("/ctx/ignored.txt"));
    assert!(ctx.is_ignored("/ctx/app.log"));
    // Paths outside the context are never ignored.
    assert!(!ctx.is_ignored("/elsewhere/app.log"));
    assert_eq!(ctx.get_absolute_path("test.txt"), "/ctx/test.txt");
    assert!(BuildContext::new("/missing", false, None).is_err());
}

#[test]
fn dockerignore_lines_and_substrings() {
    assert_eq!(parse_dockerignore("# c\n node_modules \n\n*.tmp\r\n"), vec!["node_modules", "*.tmp"]);
    let pats = vec!["target".to_string(), ".git".to_string()];
    assert!(should_ignore("src/target/debug", &pats));
    assert!(!should_ignore("src/main.rs", &pats));
}

#[test]
fn tool_settings() {
    let c = get_default_config();
    assert_eq!(c.log_level, "info");
    assert!(!c.debug);
    assert_eq!(c.config_path, ".docker/config.json");
    assert_eq!(log_level_for(0, false), "info");
    assert_eq!(log_level_for(1, false), "debug");
    assert_eq!(log_level_for(3, false), "trace");
    assert_eq!(log_level_for(0, true), "debug");
}

#[test]
fn image_manager_records_images() {
    let mut m = ImageManager::new();
    let t = Timestamp { secs: 1, nanos: 0 };
    let built = m.register_built_image("img1", "app", t);
    assert_eq!(built.name, "app");
    assert_eq!(built.tags, vec!["app:latest".to_string()]);
    let pulled = m.pull_image("redis", "7", t);
    assert!(pulled.id.starts_with("sha256:"));
    assert_eq!(pulled.id.len(), 43);
    assert_uuid_v4(&pulled.id[7..]);
    assert_eq!(m.list_images().len(), 2);
    assert_eq!(m.inspect_image("img1").unwrap().name, "app");
    m.remove_image("img1").unwrap();
    assert!(m.inspect_image("img1").is_err());
    assert!(m.remove_image("img1").is_err());
}

#[test]
fn daemon_routes() {
    match route_request("POST /containers/create HTTP/1.1\r\nHost: x\r\n\r\n{\"Image\":\"a\"}") {
        Route::CreateContainer { body } => assert_eq!(body, "{\"Image\":\"a\"}"),
        other => panic!("unexpected route {:?}", other),
    }
    assert!(matches!(route_request("garbage"), Route::BadRequest));
    assert!(matches!(route_request("GET /unknown HTTP/1.1\r\n\r\n"), Route::NotFound));
    assert!(matches!(route_request("GET /images/json HTTP/1.1\r\n\r\n"), Route::ListImages));
    assert!(matches!(route_request("GET /containers/json HTTP/1.1\r\n\r\n"), Route::ListContainers { all: false }));
    assert_eq!(port_binding("8080", "80/tcp"), "8080:80");
    assert_eq!(
        http_ok_response("{}"),
        "HTTP/1.1 200 OK\r\nContent-Type: application/json\r\nContent-Length: 2\r\n\r\n{}"
    );
    assert!(bad_request_response().starts_with("HTTP/1.1 400"));
}

#[test]
fn retries_back_off_exponentially_then_give_up() {
    assert_eq!(retry_async_step(1, 3), RetryStep::Retry { delay_ms: 50 });
    assert_eq!(retry_async_step(2, 3), RetryStep::Retry { delay_ms: 100 });
    assert_eq!(retry_async_step(3, 5), RetryStep::Retry { delay_ms: 200 });
    assert_eq!(retry_async_step(3, 3), RetryStep::GiveUp);
    assert_eq!(retry_async_step(7, 3), RetryStep::GiveUp);
}

#[test]
fn copy_sources_respect_dockerignore() {
    let ctx = BuildContext::new("/ctx", true, Some(".git\n*.log\n")).unwrap();
    let e = ctx.copy_file_source("a.log", true).unwrap().unwrap_err();
    match *e.kind {
        DockerErrorKind::ContainerError { reason } => assert_eq!(reason, "Source path is ignored: \"a.log\""),
        other => panic!("unexpected error {:?}", other),
    }
    let e = ctx.copy_file_source("main.rs", false).unwrap().unwrap_err();
    match *e.kind {
        DockerErrorKind::ContainerError { reason } => assert_eq!(reason, "Source file not found: \"main.rs\""),
        other => panic!("unexpected error {:?}", other),
    }
    assert_eq!(ctx.copy_file_source("main.rs", true).unwrap().unwrap(), "/ctx/main.rs");
    let e = ctx.copy_directory_source(".git", true).unwrap().unwrap_err();
    match *e.kind {
        DockerErrorKind::ContainerError { reason } => assert_eq!(reason, "Source directory is ignored: \".git\""),
        other => panic!("unexpected error {:?}", other),
    }
    assert!(ctx.copy_directory_source("src", false).unwrap().is_err());
    assert_eq!(ctx.copy_directory_source("src", true).unwrap().unwrap(), "/ctx/src");
}

#[test]
fn copy_source_is_unanswered_for_an_invalid_pattern() {
    let ctx = BuildContext::new("/ctx", true, Some("a(\n")).unwrap();
    assert!(ctx.copy_file_source("main.rs", true).is_none());
    assert!(ctx.copy_file_source("/elsewhere/x", true).unwrap().is_ok());
}

#[test]
fn unroutable_requests_are_answered_without_the_engine() {
    assert_eq!(
        unroutable_answer(&route_request("GET /\r\n\r\n")),
        Some("HTTP/1.1 400 Bad Request\r\n\r\n".to_string())
    );
    assert_eq!(
        unroutable_answer(&route_request("GET /nope HTTP/1.1\r\n\r\n")),
        Some("HTTP/1.1 200 OK\r\nContent-Type: application/json\r\nContent-Length: 21\r\n\r\n{\"Error\":\"Not found\"}".to_string())
    );
    assert_eq!(unroutable_answer(&route_request("GET /images/json HTTP/1.1\r\n\r\n")), None);
}

#[test]
fn built_image_ids_are_sha256_uuids() {
    let id = ImageManager::new_image_id();
    assert!(id.starts_with("sha256:"));
    assert_eq!(id.len(), 43);
    assert_uuid_v4(&id[7..]);
    let other = ImageManager::new_image_id();
    assert_ne!(id, other);
}

fn assert_uuid_v4(u: &str) {
    let cs: Vec<char> = u.chars().collect();
    assert_eq!(cs.len(), 36);
    for (i, c) in cs.iter().enumerate() {
        if i == 8 || i == 13 || i == 18 || i == 23 {
            assert_eq!(*c, '-');
        } else {
            assert!(c.is_ascii_digit() || ('a'..='f').contains(c), "{} in {}", c, u);
        }
    }
    assert_eq!(cs[14], '4');
    assert!(matches!(cs[19], '8' | '9' | 'a' | 'b'));
}

#[test]
fn create_request_collects_published_ports() {
    let bindings = vec![
        ("80/tcp".to_string(), vec![Some("8080".to_string()), None, Some("8081".to_string())]),
        ("53/udp".to_string(), vec![Some("5353".to_string())]),
        ("9000".to_string(), vec![]),
    ];
    let r = create_request(Some("nginx"), Some("web"), &bindings);
    assert_eq!(r.image, "nginx");
    assert_eq!(r.name, Some("web".to_string()));
    assert_eq!(r.ports, vec!["8080:80".to_string(), "8081:80".to_string(), "5353:53".to_string()]);
    let empty = create_request(None, None, &Vec::new());
    assert_eq!(empty.image, "");
    assert!(empty.name.is_none());
    assert!(empty.ports.is_empty());
}

#[test]
fn request_bodies_are_read_from_json() {
    let body = r#"{"Image":"nginx","Name":"web","HostConfig":{"PortBindings":{"80/tcp":[{"HostPort":"8080"},{}],"53/udp":[{"HostPort":"5353"}],"9/tcp":"x"}}}"#;
    let r = create_request_of_body(body).unwrap();
    assert_eq!(r.image, "nginx");
    assert_eq!(r.name, Some("web".to_string()));
    // serde_json keeps object keys sorted.
    assert_eq!(r.ports, vec!["5353:53".to_string(), "8080:80".to_string()]);
    let bare = create_request_of_body("{}").unwrap();
    assert_eq!(bare.image, "");
    assert!(bare.name.is_none());
    assert!(bare.ports.is_empty());
    assert_eq!(create_request_of_body("not json").unwrap_err(), "Invalid request body");

    assert_eq!(
        build_request_of_body(r#"{"path":"/src","tag":"app:1"}"#).unwrap(),
        ("/src".to_string(), "app:1".to_string())
    );
    assert_eq!(build_request_of_body("{}").unwrap(), (String::new(), String::new()));
    assert_eq!(build_request_of_body("{").unwrap_err(), "Invalid request body");

    assert_eq!(
        pull_request_of_body(r#"{"fromImage":"redis"}"#).unwrap(),
        ("redis".to_string(), "latest".to_string())
    );
    assert_eq!(
        pull_request_of_body(r#"{"fromImage":"redis","tag":"7"}"#).unwrap(),
        ("redis".to_string(), "7".to_string())
    );
    assert_eq!(pull_request_of_body("[").unwrap_err(), "Invalid request body");
}
