use rusty_docker::compose::{
    merge_documents, parse_env_file, parse_networks, parse_service, parse_services, parse_volumes, replace_env_vars,
    validate_compose_config,
};
use rusty_docker::errors::DockerErrorKind;
use rusty_docker::yaml::{get_string, merge_yaml, yaml_equal, Yaml};

fn s(t: &str) -> Yaml {
    Yaml::String(t.to_string())
}

fn map(entries: Vec<(&str, Yaml)>) -> Yaml {
    Yaml::Mapping(entries.into_iter().map(|(k, v)| (s(k), v)).collect())
}

#[test]
fn env_vars_are_replaced_in_order() {
    let vars = vec![("HOST".to_string(), "db".to_string()), ("PORT".to_string(), "5432".to_string())];
    assert_eq!(replace_env_vars("${HOST}:$PORT/$HOST", &vars), "db:5432/db");
    assert_eq!(replace_env_vars("$MISSING", &vars), "$MISSING");
    assert_eq!(replace_env_vars("plain", &vec![]), "plain");
}

#[test]
fn env_file_lines() {
    let vars = parse_env_file("# comment\nA = 1\n\nB=two=2\r\nA=3\nnoequals\n");
    assert_eq!(
        vars,
        vec![("A".to_string(), "3".to_string()), ("B".to_string(), "two=2".to_string())]
    );
}

#[test]
fn services_read_from_yaml() {
    let web = map(vec![
        ("image", s("nginx:1.25")),
        ("ports", Yaml::Sequence(vec![s("8080:80")])),
        ("volumes", Yaml::Sequence(vec![s("/src:/app:ro"), s("data:/var/lib"), s("bad")])),
        ("depends_on", Yaml::Sequence(vec![s("db")])),
    ]);
    let svc = parse_service("web", &web).unwrap();
    assert_eq!(svc.name, "web");
    assert_eq!(svc.image, "nginx:1.25");
    assert_eq!(svc.ports, vec!["80:80".to_string(), "8080:80".to_string()]);
    assert_eq!(svc.volumes.len(), 2);
    assert_eq!(svc.volumes[0].mount_type, "bind");
    assert!(svc.volumes[0].read_only);
    assert_eq!(svc.volumes[1].mount_type, "volume");
    assert!(!svc.volumes[1].read_only);
    assert_eq!(svc.depends_on, vec!["db".to_string()]);
    let defaults = parse_service("x", &map(vec![])).unwrap();
    assert_eq!(defaults.image, "nginx:latest");
    let doc = map(vec![("services", map(vec![("web", web), ("db", map(vec![("image", s("postgres"))]))]))]);
    let all = parse_services(&doc).unwrap();
    assert_eq!(all.len(), 2);
    assert_eq!(all[1].name, "db");
    assert_eq!(all[1].image, "postgres");
    assert!(validate_compose_config(&doc).is_ok());
}

#[test]
fn compose_without_services_is_refused() {
    let e = validate_compose_config(&map(vec![("version", s("3"))])).unwrap_err();
    match *e.kind {
        DockerErrorKind::InvalidParams { param, reason } => {
            assert_eq!(param, "compose_config");
            assert_eq!(reason, "No services defined in compose file");
        }
        other => panic!("unexpected error {:?}", other),
    }
    let e = merge_documents(vec![]).unwrap_err();
    match *e.kind {
        DockerErrorKind::InvalidParams { param, reason } => {
            assert_eq!(param, "compose_files");
            assert_eq!(reason, "No compose files specified");
        }
        other => panic!("unexpected error {:?}", other),
    }
}

#[test]
fn later_files_override_earlier_ones() {
    let base = map(vec![
        ("version", s("3")),
        ("services", map(vec![("web", map(vec![("image", s("nginx"))]))])),
    ]);
    let over = map(vec![
        ("services", map(vec![("web", map(vec![("image", s("nginx:alpine"))])), ("db", map(vec![]))])),
        ("volumes", map(vec![])),
    ]);
    let merged = merge_documents(vec![base, over]).unwrap();
    let entries = match &merged {
        Yaml::Mapping(e) => e,
        other => panic!("unexpected value {:?}", other),
    };
    // Base keys keep their places; new keys come last.
    assert!(yaml_equal(&entries[0].0, &s("version")));
    assert!(yaml_equal(&entries[1].0, &s("services")));
    assert!(yaml_equal(&entries[2].0, &s("volumes")));
    let services = &entries[1].1;
    match services {
        Yaml::Mapping(svcs) => {
            assert_eq!(svcs.len(), 2);
            assert_eq!(get_string(&svcs[0].1, "image"), Some("nginx:alpine".to_string()));
        }
        other => panic!("unexpected value {:?}", other),
    }
    // A non-mapping replaces.
    let r = merge_yaml(s("a"), Yaml::UInt(3));
    assert!(yaml_equal(&r, &Yaml::UInt(3)));
    // Merging an empty mapping changes nothing.
    let r = merge_yaml(map(vec![("k", s("v"))]), map(vec![]));
    assert!(yaml_equal(&r, &map(vec![("k", s("v"))])));
}

#[test]
fn networks_and_volumes_sections() {
    let doc = map(vec![
        ("networks", map(vec![("front", map(vec![("driver", s("overlay"))])), ("back", Yaml::Null)])),
        ("volumes", map(vec![("data", map(vec![("driver", s("local"))]))])),
    ]);
    let nets = parse_networks(&doc);
    assert_eq!(nets.len(), 2);
    assert_eq!(nets[0].name, "front");
    assert_eq!(nets[0].driver, "overlay");
    let vols = parse_volumes(&doc);
    assert_eq!(vols.len(), 1);
    assert_eq!(vols[0].name, "data");
}
