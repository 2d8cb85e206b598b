use rusty_docker::discovery::{
    health_probe, service_call_url, AnyLoadBalancer, CallStep, HealthProbe, ServiceDiscoveryManager, ServiceManagerImpl,
};
use rusty_docker::errors::{DockerError, DockerErrorKind};
use rusty_docker::service::{
    decrease_connections, IpHashLoadBalancer, LeastConnectionsLoadBalancer, LoadBalancingStrategy,
    RandomLoadBalancer, RoundRobinLoadBalancer, ServiceConfig, ServiceInstance, ServiceStatus,
};
use rusty_docker::types::Timestamp;

fn ts(secs: u64) -> Timestamp {
    Timestamp { secs, nanos: 0 }
}

fn instance(id: &str, service: &str, status: ServiceStatus, healthy: bool) -> ServiceInstance {
    ServiceInstance {
        id: id.to_string(),
        service_id: service.to_string(),
        container_id: format!("c-{}", id),
        container_name: format!("n-{}", id),
        address: "127.0.0.1:8080".to_string(),
        status,
        health_status: healthy,
        created_at: ts(1),
        updated_at: ts(1),
    }
}

fn config(name: &str) -> ServiceConfig {
    ServiceConfig {
        name: name.to_string(),
        port: 8080,
        network_id: "default".to_string(),
        load_balancing_strategy: LoadBalancingStrategy::RoundRobin,
        health_check_path: Some("/health".to_string()),
        health_check_interval: Some(30),
        labels: vec![("tier".to_string(), "web".to_string())],
    }
}

#[test]
fn round_robin_takes_healthy_instances_in_turn() {
    let mut b = RoundRobinLoadBalancer::new();
    b.add_instance(&instance("a", "s", ServiceStatus::Running, true));
    b.add_instance(&instance("b", "s", ServiceStatus::Running, false));
    b.add_instance(&instance("c", "s", ServiceStatus::Running, true));
    let picks: Vec<String> = (0..4).map(|_| b.select_instance("s").unwrap().id).collect();
    assert_eq!(picks, vec!["a", "c", "a", "c"]);
}

#[test]
fn balancers_report_unknown_and_unhealthy_services() {
    let mut b = RoundRobinLoadBalancer::new();
    match *b.select_instance("none").unwrap_err().kind {
        DockerErrorKind::ResourceNotFound { resource_type, identifier } => {
            assert_eq!(resource_type, "service");
            assert_eq!(identifier, "none");
        }
        other => panic!("unexpected error {:?}", other),
    }
    b.add_instance(&instance("a", "s", ServiceStatus::Stopped, true));
    match *b.select_instance("s").unwrap_err().kind {
        DockerErrorKind::InternalError { reason } => assert_eq!(reason, "No healthy instances available"),
        other => panic!("unexpected error {:?}", other),
    }
}

#[test]
fn random_balancer_selects_a_healthy_instance() {
    let mut b = RandomLoadBalancer::new();
    b.add_instance(&instance("a", "s", ServiceStatus::Running, false));
    b.add_instance(&instance("b", "s", ServiceStatus::Running, true));
    for _ in 0..10 {
        assert_eq!(b.select_instance("s").unwrap().id, "b");
    }
}

#[test]
fn least_connections_prefers_idle_instances() {
    let mut b = LeastConnectionsLoadBalancer::new();
    b.add_instance(&instance("a", "s", ServiceStatus::Running, true));
    b.add_instance(&instance("b", "s", ServiceStatus::Running, true));
    assert_eq!(b.select_instance("s").unwrap().id, "a");
    assert_eq!(b.select_instance("s").unwrap().id, "b");
    assert_eq!(b.select_instance("s").unwrap().id, "a");
    decrease_connections(&mut b, "b").unwrap();
    assert_eq!(b.select_instance("s").unwrap().id, "b");
    assert!(decrease_connections(&mut b, "unknown").is_err());
}

#[test]
fn ip_hash_keeps_a_client_on_one_instance() {
    let mut b = IpHashLoadBalancer::new();
    b.add_instance(&instance("a", "s", ServiceStatus::Running, true));
    b.add_instance(&instance("b", "s", ServiceStatus::Running, true));
    assert_eq!(b.select_instance("s", Some(5)).unwrap().id, "b");
    assert_eq!(b.select_instance("s", Some(5)).unwrap().id, "b");
    assert_eq!(b.select_instance("s", Some(4)).unwrap().id, "a");
}

#[test]
fn update_and_remove_instances() {
    let mut b = RoundRobinLoadBalancer::new();
    b.add_instance(&instance("a", "s", ServiceStatus::Running, true));
    b.update_instance(&instance("a", "s", ServiceStatus::Running, false)).unwrap();
    assert!(b.select_instance("s").is_err());
    assert!(b.update_instance(&instance("z", "s", ServiceStatus::Running, true)).is_err());
    b.remove_instance("a").unwrap();
    assert!(b.remove_instance("a").is_err());
}

#[test]
fn discovery_finds_registered_services_by_name() {
    let mut d = ServiceDiscoveryManager::new();
    let s = d.register_service(&config("web"), ts(10));
    assert_eq!(s.id.len(), 36);
    assert_eq!(s.name, "web");
    assert_eq!(s.created_at, ts(10));
    assert!(s.instances.is_empty());
    let found = d.discover_service("web").unwrap();
    assert_eq!(found.id, s.id);
    assert_eq!(found.labels, vec![("tier".to_string(), "web".to_string())]);
    assert!(d.discover_service("db").is_err());
    d.register_instance(&s.id, &instance("i1", &s.id, ServiceStatus::Running, true), ts(11)).unwrap();
    let found = d.discover_service("web").unwrap();
    assert_eq!(found.instances.len(), 1);
    assert_eq!(found.updated_at, ts(11));
    assert_eq!(d.load_balance(&s.id).unwrap().id, "i1");
    d.deregister_instance(&s.id, "i1", ts(12)).unwrap();
    assert!(d.load_balance(&s.id).is_err());
    assert!(d.deregister_instance(&s.id, "i1", ts(13)).is_err());
    d.deregister_service(&s.id).unwrap();
    assert!(d.discover_service("web").is_err());
    assert!(d.deregister_service(&s.id).is_err());
    assert!(d.list_services().unwrap().is_empty());
}

#[test]
fn load_balancer_factory_follows_strategy() {
    assert!(matches!(
        ServiceDiscoveryManager::create_load_balancer(LoadBalancingStrategy::LeastConnections),
        AnyLoadBalancer::LeastConnections(_)
    ));
    assert!(matches!(
        ServiceDiscoveryManager::create_load_balancer(LoadBalancingStrategy::IpHash),
        AnyLoadBalancer::IpHash(_)
    ));
}

#[test]
fn service_manager_adds_running_healthy_instances() {
    let mut m = ServiceManagerImpl::new();
    let s = m.create_service(&config("api"), ts(1)).unwrap();
    let inst = m.add_service_instance(&s.id, "container-1", "my-container", "127.0.0.1:8080", ts(2)).unwrap();
    assert_eq!(inst.id.len(), 36);
    assert_eq!(inst.service_id, s.id);
    assert_eq!(inst.status, ServiceStatus::Running);
    assert!(inst.health_status);
    assert_eq!(m.inspect_service(&s.id).unwrap().instances.len(), 1);
    assert_eq!(m.service_discovery().discover_service("api").unwrap().id, s.id);
    assert!(m.inspect_service("nope").is_err());
    assert_eq!(m.load_balance(&s.id).unwrap().id, inst.id);
    m.remove_service_instance(&s.id, &inst.id, ts(3)).unwrap();
    m.delete_service(&s.id).unwrap();
    assert!(m.list_services().unwrap().is_empty());
    assert!(m.add_service_instance(&s.id, "c", "n", "127.0.0.1:1", ts(4)).is_err());
}

#[test]
fn service_calls_retry_twice() {
    match ServiceManagerImpl::call_step(0, Err(DockerError::internal("down"))) {
        CallStep::Retry { delay_ms } => assert_eq!(delay_ms, 100),
        other => panic!("unexpected step {:?}", other),
    }
    match ServiceManagerImpl::call_step(1, Err(DockerError::internal("down"))) {
        CallStep::Retry { delay_ms } => assert_eq!(delay_ms, 200),
        other => panic!("unexpected step {:?}", other),
    }
    match ServiceManagerImpl::call_step(2, Err(DockerError::internal("down"))) {
        CallStep::Fail(e) => assert!(matches!(*e.kind, DockerErrorKind::InternalError { .. })),
        other => panic!("unexpected step {:?}", other),
    }
    match ServiceManagerImpl::call_step(1, Ok(vec![1, 2])) {
        CallStep::Done(r) => assert_eq!(r, vec![1, 2]),
        other => panic!("unexpected step {:?}", other),
    }
}

#[test]
fn failed_health_check_takes_an_instance_out_of_rotation() {
    let mut d = ServiceDiscoveryManager::new();
    let s = d.register_service(&config("web"), ts(10));
    d.register_instance(&s.id, &instance("i1", &s.id, ServiceStatus::Running, true), ts(11)).unwrap();
    d.health_check(&s.id, 0, false, ts(12)).unwrap();
    let found = d.discover_service("web").unwrap();
    assert!(!found.instances[0].health_status);
    assert_eq!(found.instances[0].updated_at, ts(12));
    assert!(d.load_balance(&s.id).is_err());
    d.health_check(&s.id, 0, true, ts(13)).unwrap();
    assert_eq!(d.load_balance(&s.id).unwrap().id, "i1");
    assert!(d.health_check("missing", 0, true, ts(14)).is_err());
}

#[test]
fn health_probe_uses_http_path_or_tcp() {
    let mut d = ServiceDiscoveryManager::new();
    let s = d.register_service(&config("web"), ts(10));
    let inst = instance("i1", &s.id, ServiceStatus::Running, true);
    match health_probe(&inst, &s) {
        HealthProbe::Http(u) => assert_eq!(u, "http://127.0.0.1:8080/health"),
        other => panic!("unexpected probe {:?}", other),
    }
    let mut c = config("db");
    c.health_check_path = None;
    let s2 = d.register_service(&c, ts(10));
    match health_probe(&inst, &s2) {
        HealthProbe::Tcp(a) => assert_eq!(a, "127.0.0.1:8080"),
        other => panic!("unexpected probe {:?}", other),
    }
    assert_eq!(service_call_url(&inst), "http://127.0.0.1:8080/");
}
