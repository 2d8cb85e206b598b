use rusty_docker::compose::{ComposeService, HealthCheckConfig};
use rusty_docker::errors::DockerErrorKind;
use rusty_docker::orchestrate::{
    is_orphan, orphans, scale_members, scale_plan, should_recreate, up_step, ScaleAction, UpAction,
};

fn service(name: &str, deps: &[&str], checked: bool) -> ComposeService {
    let mut s = ComposeService::default(name);
    s.depends_on = deps.iter().map(|d| d.to_string()).collect();
    if checked {
        s.healthcheck = Some(HealthCheckConfig {
            test: vec!["CMD".to_string(), "true".to_string()],
            interval: None,
            timeout: None,
            retries: None,
            start_period: None,
        });
    }
    s
}

fn names(v: &[&str]) -> Vec<String> {
    v.iter().map(|s| s.to_string()).collect()
}

#[test]
fn services_start_after_their_dependencies() {
    let services = vec![service("db", &[], true), service("cache", &[], false), service("web", &["db", "cache"], false)];
    match up_step(&services, &names(&["db", "cache", "web"]), &names(&[]), &names(&[])) {
        UpAction::Start(v) => assert_eq!(v, names(&["db", "cache"])),
        other => panic!("unexpected step {:?}", other),
    }
    // db is started but not yet healthy: web waits.
    assert!(matches!(up_step(&services, &names(&["web"]), &names(&["db", "cache"]), &names(&["cache"])), UpAction::Stuck));
    match up_step(&services, &names(&["web"]), &names(&["db", "cache"]), &names(&["db", "cache"])) {
        UpAction::Start(v) => assert_eq!(v, names(&["web"])),
        other => panic!("unexpected step {:?}", other),
    }
    assert!(matches!(up_step(&services, &names(&[]), &names(&[]), &names(&[])), UpAction::Done));
}

#[test]
fn a_dependency_cycle_is_stuck() {
    let services = vec![service("a", &["b"], false), service("b", &["a"], false)];
    assert!(matches!(up_step(&services, &names(&["a", "b"]), &names(&[]), &names(&[])), UpAction::Stuck));
}

#[test]
fn recreation_follows_the_flags() {
    assert!(should_recreate(true, true, true));
    assert!(should_recreate(false, false, false));
    assert!(!should_recreate(false, false, true));
    assert!(!should_recreate(false, true, false));
}

#[test]
fn orphans_are_containers_no_service_has() {
    let services = vec![service("web", &[], false), service("db", &[], false)];
    assert_eq!(orphans(&names(&["web", "old", "db", "tmp"]), &services), names(&["old", "tmp"]));
    assert!(is_orphan("x", &services));
    assert!(!is_orphan("db", &services));
}

#[test]
fn scaling_plans_new_and_surplus_containers() {
    let existing = names(&["web", "web-2", "db"]);
    assert_eq!(scale_members(&existing, "web"), names(&["web", "web-2"]));
    match scale_plan("web=4", &existing).unwrap() {
        (name, ScaleAction::Create { scale, names: created }) => {
            assert_eq!(name, "web");
            assert_eq!(scale, 4);
            assert_eq!(created, names(&["web-3", "web-4"]));
        }
        other => panic!("unexpected plan {:?}", other),
    }
    match scale_plan("web=1", &existing).unwrap() {
        (_, ScaleAction::Remove { scale, containers }) => {
            assert_eq!(scale, 1);
            assert_eq!(containers, names(&["web"]));
        }
        other => panic!("unexpected plan {:?}", other),
    }
    assert!(matches!(scale_plan("db=x", &existing).unwrap(), (_, ScaleAction::Keep { scale: 1 })));
    match *scale_plan("web", &existing).unwrap_err().kind {
        DockerErrorKind::InvalidParams { param, reason } => {
            assert_eq!(param, "scale");
            assert_eq!(reason, "Invalid scale specification: web");
        }
        other => panic!("unexpected error {:?}", other),
    }
}
