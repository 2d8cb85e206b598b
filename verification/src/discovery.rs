//! Service discovery: services registered by id and by name, their
//! instances, and the round-robin balancer that spreads calls over them.
use vstd::prelude::*;
use crate::bridge::copy_pairs;
use crate::errors::DockerError;
use crate::image::{is_uuid_v4, new_uuid};
use crate::runtime::{assoc_find, has_key, key_at, keys_unique, law_assoc_read_after_write, law_assoc_removed_is_gone, lemma_key_at_unique};
use crate::service::{
    copy_instance, count_of, is_not_found, next_count, pool_add, position_of, remove_ok, round_robin_pick, update_ok,
    selection_ok, InstanceView, LeastConnectionsLoadBalancer, LoadBalancingStrategy, IpHashLoadBalancer,
    RandomLoadBalancer, RoundRobinLoadBalancer, ServiceConfig, ServiceInstance, ServiceStatus,
};
use crate::types::Timestamp;
use crate::yaml::{assoc_delete, assoc_insert, assoc_put, assoc_remove};

verus! {

broadcast use vstd::string::group_string_axioms;

/// A registered service.
#[derive(Debug)]
pub struct ServiceInfo {
    pub id: String,
    pub name: String,
    pub port: u16,
    pub network_id: String,
    pub load_balancing_strategy: LoadBalancingStrategy,
    pub health_check_path: Option<String>,
    pub health_check_interval: Option<u64>,
    pub instances: Vec<ServiceInstance>,
    pub labels: Vec<(String, String)>,
    pub created_at: Timestamp,
    pub updated_at: Timestamp,
}

/// The view of a service.
pub type ServiceInfoView = (
    Seq<char>,
    Seq<char>,
    u16,
    Seq<char>,
    LoadBalancingStrategy,
    Option<Seq<char>>,
    Option<u64>,
    Seq<InstanceView>,
    Seq<(Seq<char>, Seq<char>)>,
    Timestamp,
    Timestamp,
);

impl DeepView for ServiceInfo {
    type V = ServiceInfoView;

    open spec fn deep_view(&self) -> ServiceInfoView {
        (
            self.id@,
            self.name@,
            self.port,
            self.network_id@,
            self.load_balancing_strategy,
            self.health_check_path.deep_view(),
            self.health_check_interval,
            self.instances.deep_view(),
            self.labels.deep_view(),
            self.created_at,
            self.updated_at,
        )
    }
}

/// The service `id` registered from `config` at `now`, with no instance.
pub open spec fn new_service_view(id: Seq<char>, config: ServiceConfig, now: Timestamp) -> ServiceInfoView {
    (
        id,
        config.name@,
        config.port,
        config.network_id@,
        config.load_balancing_strategy,
        config.health_check_path.deep_view(),
        config.health_check_interval,
        seq![],
        config.labels.deep_view(),
        now,
        now,
    )
}

/// The service `s` with the instances `is`, updated at `now`.
pub open spec fn with_instances_at(s: ServiceInfoView, is: Seq<InstanceView>, now: Timestamp) -> ServiceInfoView {
    (s.0, s.1, s.2, s.3, s.4, s.5, s.6, is, s.8, s.9, now)
}

/// The service `s` with the instances `is` (its update time kept).
pub open spec fn with_instance_list(s: ServiceInfoView, is: Seq<InstanceView>) -> ServiceInfoView {
    (s.0, s.1, s.2, s.3, s.4, s.5, s.6, is, s.8, s.9, s.10)
}

/// The instance `inst` after a health check at `now` that found it
/// `healthy` or not.
pub open spec fn checked(inst: InstanceView, healthy: bool, now: Timestamp) -> InstanceView {
    (inst.0, inst.1, inst.2, inst.3, inst.4, inst.5, healthy, inst.7, now)
}

/// A copy of a list of instances.
fn copy_instances(v: &Vec<ServiceInstance>) -> (r: Vec<ServiceInstance>)
    ensures
        r.deep_view() == v.deep_view(),
{
    let mut r: Vec<ServiceInstance> = Vec::new();
    let mut i: usize = 0;
    while i < v.len()
        invariant
            i <= v.len(),
            r.deep_view() == v.deep_view().take(i as int),
        decreases v.len() - i,
    {
        let ghost before = r.deep_view();
        r.push(copy_instance(&v[i]));
        assert(r.deep_view() =~= before.push(v.deep_view()[i as int]));
        assert(v.deep_view().take(i + 1) =~= v.deep_view().take(i as int).push(v.deep_view()[i as int]));
        i = i + 1;
    }
    assert(v.deep_view().take(v.len() as int) =~= v.deep_view());
    r
}

/// A copy of a service.
pub fn copy_service(s: &ServiceInfo) -> (r: ServiceInfo)
    ensures
        r.deep_view() == s.deep_view(),
{
    ServiceInfo {
        id: s.id.clone(),
        name: s.name.clone(),
        port: s.port,
        network_id: s.network_id.clone(),
        load_balancing_strategy: s.load_balancing_strategy,
        health_check_path: match &s.health_check_path {
            Some(p) => Some(p.clone()),
            None => None,
        },
        health_check_interval: s.health_check_interval,
        instances: copy_instances(&s.instances),
        labels: copy_pairs(&s.labels),
        created_at: s.created_at,
        updated_at: s.updated_at,
    }
}

/// The services of an id-keyed list, in order.
pub open spec fn service_values(s: Seq<(Seq<char>, ServiceInfoView)>) -> Seq<ServiceInfoView> {
    s.map_values(|e: (Seq<char>, ServiceInfoView)| e.1)
}

/// A balancer of one of the four strategies.
#[derive(Debug)]
pub enum AnyLoadBalancer {
    RoundRobin(RoundRobinLoadBalancer),
    Random(RandomLoadBalancer),
    LeastConnections(LeastConnectionsLoadBalancer),
    IpHash(IpHashLoadBalancer),
}

/// The strategy a balancer follows.
pub open spec fn strategy_of(b: AnyLoadBalancer) -> LoadBalancingStrategy {
    match b {
        AnyLoadBalancer::RoundRobin(_) => LoadBalancingStrategy::RoundRobin,
        AnyLoadBalancer::Random(_) => LoadBalancingStrategy::Random,
        AnyLoadBalancer::LeastConnections(_) => LoadBalancingStrategy::LeastConnections,
        AnyLoadBalancer::IpHash(_) => LoadBalancingStrategy::IpHash,
    }
}

/// The instances a balancer knows, by service.
pub open spec fn balancer_contents(b: AnyLoadBalancer) -> Seq<(Seq<char>, Seq<InstanceView>)> {
    match b {
        AnyLoadBalancer::RoundRobin(x) => x.contents(),
        AnyLoadBalancer::Random(x) => x.contents(),
        AnyLoadBalancer::LeastConnections(x) => x.contents(),
        AnyLoadBalancer::IpHash(x) => x.contents(),
    }
}

/// The error for a service that is not registered.
pub open spec fn is_unknown_service(e: DockerError, id: Seq<char>) -> bool {
    is_not_found(e, "service"@, id)
}

/// Keeps the registered services by id, their ids by name, and a
/// round-robin balancer over their instances.
#[derive(Debug)]
pub struct ServiceDiscoveryManager {
    services: Vec<(String, ServiceInfo)>,
    service_name_map: Vec<(String, String)>,
    load_balancer: RoundRobinLoadBalancer,
}

impl ServiceDiscoveryManager {
    /// The services, by id.
    pub closed spec fn services(&self) -> Seq<(Seq<char>, ServiceInfoView)> {
        self.services.deep_view()
    }

    /// The service ids, by service name.
    pub closed spec fn names(&self) -> Seq<(Seq<char>, Seq<char>)> {
        self.service_name_map.deep_view()
    }

    /// The instances the balancer knows, by service.
    pub closed spec fn balanced(&self) -> Seq<(Seq<char>, Seq<InstanceView>)> {
        self.load_balancer.contents()
    }

    /// How many selections the balancer has served for each service.
    pub closed spec fn cursors(&self) -> Seq<(Seq<char>, usize)> {
        self.load_balancer.cursors()
    }

    /// A manager with no service.
    pub fn new() -> (m: Self)
        ensures
            m.services().len() == 0,
            m.names().len() == 0,
            m.balanced().len() == 0,
            m.cursors().len() == 0,
    {
        let m = ServiceDiscoveryManager {
            services: Vec::new(),
            service_name_map: Vec::new(),
            load_balancer: RoundRobinLoadBalancer::new(),
        };
        assert(m.services() =~= Seq::<(Seq<char>, ServiceInfoView)>::empty());
        assert(m.names() =~= Seq::<(Seq<char>, Seq<char>)>::empty());
        m
    }

    /// A balancer for `strategy`, knowing no service.
    pub fn create_load_balancer(strategy: LoadBalancingStrategy) -> (b: AnyLoadBalancer)
        ensures
            strategy_of(b) == strategy,
            balancer_contents(b).len() == 0,
    {
        match strategy {
            LoadBalancingStrategy::RoundRobin => AnyLoadBalancer::RoundRobin(RoundRobinLoadBalancer::new()),
            LoadBalancingStrategy::Random => AnyLoadBalancer::Random(RandomLoadBalancer::new()),
            LoadBalancingStrategy::LeastConnections => AnyLoadBalancer::LeastConnections(
                LeastConnectionsLoadBalancer::new(),
            ),
            LoadBalancingStrategy::IpHash => AnyLoadBalancer::IpHash(IpHashLoadBalancer::new()),
        }
    }

    /// Registers a service made from `config` at `now` under a new random
    /// id (a version-4 UUID), and records its id under its name.
    pub fn register_service(&mut self, config: &ServiceConfig, now: Timestamp) -> (r: ServiceInfo)
        ensures
            is_uuid_v4(r.id@),
            r.deep_view() == new_service_view(r.id@, *config, now),
            final(self).services() == assoc_insert(old(self).services(), r.id@, r.deep_view()),
            final(self).names() == assoc_insert(old(self).names(), config.name@, r.id@),
            final(self).balanced() == old(self).balanced(),
            final(self).cursors() == old(self).cursors(),
    {
        let service_id = new_uuid();
        let info = ServiceInfo {
            id: service_id.clone(),
            name: config.name.clone(),
            port: config.port,
            network_id: config.network_id.clone(),
            load_balancing_strategy: config.load_balancing_strategy,
            health_check_path: match &config.health_check_path {
                Some(p) => Some(p.clone()),
                None => None,
            },
            health_check_interval: config.health_check_interval,
            instances: Vec::new(),
            labels: copy_pairs(&config.labels),
            created_at: now,
            updated_at: now,
        };
        assert(info.deep_view() =~= new_service_view(service_id@, *config, now));
        let r = copy_service(&info);
        assoc_put(&mut self.services, service_id.clone(), info);
        assoc_put(&mut self.service_name_map, config.name.clone(), service_id);
        r
    }

    /// Forgets the service `service_id` and its name.
    pub fn deregister_service(&mut self, service_id: &str) -> (r: Result<(), DockerError>)
        ensures
            final(self).balanced() == old(self).balanced(),
            final(self).cursors() == old(self).cursors(),
            !has_key(old(self).services(), service_id@) ==> (r matches Err(e) && is_unknown_service(
                e,
                service_id@,
            ) && final(self).services() == old(self).services() && final(self).names() == old(
                self,
            ).names()),
            forall|i: int|
                key_at(old(self).services(), service_id@, i) ==> r is Ok && final(self).services()
                    == assoc_remove(old(self).services(), service_id@) && final(self).names() == assoc_remove(
                    old(self).names(),
                    old(self).services()[i].1.1,
                ),
    {
        let ghost before = self.services();
        match assoc_find(&self.services, service_id) {
            None => Err(DockerError::not_found("service", service_id)),
            Some(i) => {
                proof {
                    assert forall|j: int| key_at(before, service_id@, j) implies j == i by {
                        lemma_key_at_unique(before, service_id@, i as int, j);
                    }
                }
                let name = self.services[i].1.name.clone();
                assert(name@ == before[i as int].1.1);
                assoc_delete(&mut self.services, service_id);
                assoc_delete(&mut self.service_name_map, name.as_str());
                Ok(())
            },
        }
    }

    /// Adds `instance` to the service `service_id`, updated at `now`, and
    /// hands it to the balancer (under the instance's own service id).
    pub fn register_instance(&mut self, service_id: &str, instance: &ServiceInstance, now: Timestamp) -> (r:
        Result<ServiceInstance, DockerError>)
        ensures
            final(self).names() == old(self).names(),
            final(self).cursors() == old(self).cursors(),
            !has_key(old(self).services(), service_id@) ==> (r matches Err(e) && is_unknown_service(
                e,
                service_id@,
            ) && final(self).services() == old(self).services() && final(self).balanced() == old(
                self,
            ).balanced()),
            forall|i: int|
                key_at(old(self).services(), service_id@, i) ==> {
                    let s = old(self).services()[i].1;
                    &&& r matches Ok(x) && x.deep_view() == instance.deep_view()
                    &&& final(self).services() == old(self).services().update(
                        i,
                        (service_id@, with_instances_at(s, s.7.push(instance.deep_view()), now)),
                    )
                    &&& final(self).balanced() == pool_add(
                        old(self).balanced(),
                        instance.service_id@,
                        instance.deep_view(),
                    )
                },
    {
        let ghost before = self.services();
        match assoc_find(&self.services, service_id) {
            None => Err(DockerError::not_found("service", service_id)),
            Some(i) => {
                proof {
                    assert forall|j: int| key_at(before, service_id@, j) implies j == i by {
                        lemma_key_at_unique(before, service_id@, i as int, j);
                    }
                }
                let (k, mut info) = self.services.remove(i);
                let ghost iv = info.deep_view();
                info.instances.push(copy_instance(instance));
                info.updated_at = now;
                let ghost nv = info.deep_view();
                assert(nv =~= with_instances_at(iv, iv.7.push(instance.deep_view()), now));
                self.services.insert(i, (k, info));
                assert(self.services() =~= before.update(i as int, (service_id@, nv)));
                self.load_balancer.add_instance(instance);
                Ok(copy_instance(instance))
            },
        }
    }

    /// Removes the instance `instance_id` from the service `service_id`,
    /// updated at `now`, then from the balancer, whose failure is reported
    /// (the service keeps the removal).
    pub fn deregister_instance(&mut self, service_id: &str, instance_id: &str, now: Timestamp) -> (r: Result<
        (),
        DockerError,
    >)
        ensures
            final(self).names() == old(self).names(),
            final(self).cursors() == old(self).cursors(),
            !has_key(old(self).services(), service_id@) ==> (r matches Err(e) && is_unknown_service(
                e,
                service_id@,
            ) && final(self).services() == old(self).services() && final(self).balanced() == old(
                self,
            ).balanced()),
            forall|i: int|
                key_at(old(self).services(), service_id@, i) ==> {
                    let s = old(self).services()[i].1;
                    &&& (forall|p: int| 0 <= p < s.7.len() ==> #[trigger] s.7[p].0 != instance_id@) ==> (
                    r matches Err(e) && is_not_found(e, "instance"@, instance_id@) && final(self).services()
                        == old(self).services() && final(self).balanced() == old(self).balanced())
                    &&& forall|p: int|
                        0 <= p < s.7.len() && s.7[p].0 == instance_id@ && (forall|q: int|
                            0 <= q < p ==> #[trigger] s.7[q].0 != instance_id@) ==> {
                            &&& final(self).services() == old(self).services().update(
                                i,
                                (service_id@, with_instances_at(s, #[trigger] s.7.remove(p), now)),
                            )
                            &&& remove_ok(old(self).balanced(), instance_id@, r, final(self).balanced())
                        }
                },
    {
        let ghost before = self.services();
        match assoc_find(&self.services, service_id) {
            None => Err(DockerError::not_found("service", service_id)),
            Some(i) => {
                proof {
                    assert forall|j: int| key_at(before, service_id@, j) implies j == i by {
                        lemma_key_at_unique(before, service_id@, i as int, j);
                    }
                }
                let ghost s = before[i as int].1;
                assert(s.7 == self.services@[i as int].1.instances.deep_view());
                match position_of(&self.services[i].1.instances, instance_id) {
                    None => {
                        assert forall|p: int| 0 <= p < s.7.len() implies #[trigger] s.7[p].0 != instance_id@ by {
                            assert(s.7[p].0 == self.services@[i as int].1.instances@[p].id@);
                        }
                        Err(DockerError::not_found("instance", instance_id))
                    },
                    Some(p) => {
                        proof {
                            assert(s.7[p as int].0 == instance_id@);
                            assert forall|p2: int|
                                0 <= p2 < s.7.len() && s.7[p2].0 == instance_id@ && (forall|q: int|
                                    0 <= q < p2 ==> #[trigger] s.7[q].0 != instance_id@) implies p2 == p by {
                                if p2 < p {
                                    assert(s.7[p2].0 == self.services@[i as int].1.instances@[p2].id@);
                                }
                                if p < p2 {
                                    assert(s.7[p as int].0 != instance_id@);
                                }
                            }
                        }
                        let (k, mut info) = self.services.remove(i);
                        let ghost iv = info.deep_view();
                        let _ = info.instances.remove(p);
                        info.updated_at = now;
                        let ghost nv = info.deep_view();
                        assert(nv =~= with_instances_at(iv, iv.7.remove(p as int), now));
                        self.services.insert(i, (k, info));
                        assert(self.services() =~= before.update(i as int, (service_id@, nv)));
                        self.load_balancer.remove_instance(instance_id)
                    },
                }
            },
        }
    }

    /// Records the health check, at `now`, of the instance at position
    /// `index` of the service `service_id` (the caller checks the instances
    /// in order, by HTTP when the service has a health-check path and by
    /// TCP otherwise, and stops at the first failure): the instance is
    /// marked healthy or not and updated, then handed to the balancer,
    /// whose failure is reported.
    pub fn health_check(&mut self, service_id: &str, index: usize, healthy: bool, now: Timestamp) -> (r: Result<
        (),
        DockerError,
    >)
        requires
            forall|i: int| key_at(old(self).services(), service_id@, i) ==> index < old(self).services()[i].1.7.len(),
        ensures
            final(self).names() == old(self).names(),
            final(self).cursors() == old(self).cursors(),
            !has_key(old(self).services(), service_id@) ==> (r matches Err(e) && is_unknown_service(
                e,
                service_id@,
            ) && final(self).services() == old(self).services() && final(self).balanced() == old(
                self,
            ).balanced()),
            forall|i: int|
                key_at(old(self).services(), service_id@, i) ==> {
                    let s = old(self).services()[i].1;
                    let inst = checked(s.7[index as int], healthy, now);
                    &&& final(self).services() == old(self).services().update(
                        i,
                        (service_id@, with_instance_list(s, s.7.update(index as int, inst))),
                    )
                    &&& update_ok(old(self).balanced(), inst, r, final(self).balanced())
                },
    {
        let ghost before = self.services();
        match assoc_find(&self.services, service_id) {
            None => Err(DockerError::not_found("service", service_id)),
            Some(i) => {
                proof {
                    assert forall|j: int| key_at(before, service_id@, j) implies j == i by {
                        lemma_key_at_unique(before, service_id@, i as int, j);
                    }
                }
                let (k, mut info) = self.services.remove(i);
                let ghost iv = info.deep_view();
                assert(iv.7.len() == info.instances@.len());
                let mut inst = info.instances.remove(index);
                inst.health_status = healthy;
                inst.updated_at = now;
                let copy = copy_instance(&inst);
                assert(copy.deep_view() == checked(iv.7[index as int], healthy, now));
                info.instances.insert(index, inst);
                let ghost nv = info.deep_view();
                assert(nv =~= with_instance_list(iv, iv.7.update(index as int, copy.deep_view())));
                self.services.insert(i, (k, info));
                assert(self.services() =~= before.update(i as int, (service_id@, nv)));
                self.load_balancer.update_instance(&copy)
            },
        }
    }

    /// The service registered under the name `service_name`.
    pub fn discover_service(&self, service_name: &str) -> (r: Result<ServiceInfo, DockerError>)
        ensures
            !has_key(self.names(), service_name@) ==> (r matches Err(e) && is_unknown_service(e, service_name@)),
            forall|i: int|
                key_at(self.names(), service_name@, i) ==> {
                    let id = self.names()[i].1;
                    &&& !has_key(self.services(), id) ==> (r matches Err(e) && is_unknown_service(e, id))
                    &&& forall|j: int|
                        key_at(self.services(), id, j) ==> (r matches Ok(s) && s.deep_view()
                            == self.services()[j].1)
                },
    {
        match assoc_find(&self.service_name_map, service_name) {
            None => Err(DockerError::not_found("service", service_name)),
            Some(i) => {
                proof {
                    assert forall|j: int| key_at(self.names(), service_name@, j) implies j == i by {
                        lemma_key_at_unique(self.names(), service_name@, i as int, j);
                    }
                }
                let id = &self.service_name_map[i].1;
                assert(id@ == self.names()[i as int].1);
                match assoc_find(&self.services, id.as_str()) {
                    None => Err(DockerError::not_found("service", id.as_str())),
                    Some(j) => {
                        proof {
                            assert forall|j2: int| key_at(self.services(), id@, j2) implies j2 == j by {
                                lemma_key_at_unique(self.services(), id@, j as int, j2);
                            }
                        }
                        Ok(copy_service(&self.services[j].1))
                    },
                }
            },
        }
    }

    /// All registered services, in the order they were registered.
    pub fn list_services(&self) -> (r: Result<Vec<ServiceInfo>, DockerError>)
        ensures
            r matches Ok(l) && l.deep_view() == service_values(self.services()),
    {
        let ghost vals = service_values(self.services());
        let mut r: Vec<ServiceInfo> = Vec::new();
        let mut i: usize = 0;
        while i < self.services.len()
            invariant
                i <= self.services.len(),
                vals == service_values(self.services()),
                r.deep_view() == vals.take(i as int),
            decreases self.services.len() - i,
        {
            let ghost before = r.deep_view();
            let c = copy_service(&self.services[i].1);
            r.push(c);
            assert(vals[i as int] == self.services@[i as int].1.deep_view());
            assert(r.deep_view() =~= before.push(vals[i as int]));
            assert(vals.take(i + 1) =~= vals.take(i as int).push(vals[i as int]));
            i = i + 1;
        }
        assert(vals.take(self.services.len() as int) =~= vals);
        Ok(r)
    }

    /// Selects an instance of the service `service_id`, round-robin.
    pub fn load_balance(&mut self, service_id: &str) -> (r: Result<ServiceInstance, DockerError>)
        ensures
            final(self).services() == old(self).services(),
            final(self).names() == old(self).names(),
            final(self).balanced() == old(self).balanced(),
            selection_ok(
                old(self).balanced(),
                service_id@,
                r,
                round_robin_pick(count_of(old(self).cursors(), service_id@)),
            ),
            r is Ok ==> final(self).cursors() == assoc_insert(
                old(self).cursors(),
                service_id@,
                next_count(count_of(old(self).cursors(), service_id@)),
            ),
            r is Err ==> final(self).cursors() == old(self).cursors(),
    {
        self.load_balancer.select_instance(service_id)
    }
}

/// The instance a service manager adds: a new random id (a version-4 UUID),
/// running and healthy, made and updated at `now`.
pub open spec fn new_instance_view(
    id: Seq<char>,
    service_id: Seq<char>,
    container_id: Seq<char>,
    container_name: Seq<char>,
    address: Seq<char>,
    now: Timestamp,
) -> InstanceView {
    (id, service_id, container_id, container_name, address, ServiceStatus::Running, true, now, now)
}

/// How an instance's health is checked.
#[derive(Debug)]
pub enum HealthProbe {
    /// Fetch this URL; a success status means healthy.
    Http(String),
    /// Connect to this address; a connection means healthy.
    Tcp(String),
}

/// How the instance `instance` of the service `service` is checked: by
/// HTTP at `http://ADDRESS/PATH` when the service has a health-check path,
/// by TCP at the instance's address otherwise.
pub fn health_probe(instance: &ServiceInstance, service: &ServiceInfo) -> (r: HealthProbe)
    ensures
        match service.health_check_path {
            Some(p) => r matches HealthProbe::Http(u) && u@ == "http://"@ + instance.address@ + p@,
            None => r matches HealthProbe::Tcp(a) && a@ == instance.address@,
        },
{
    match &service.health_check_path {
        Some(p) => {
            let mut v = crate::text::chars_of("http://");
            crate::text::append_str(&mut v, instance.address.as_str());
            crate::text::append_str(&mut v, p.as_str());
            HealthProbe::Http(crate::text::string_from_chars(&v))
        },
        None => HealthProbe::Tcp(instance.address.clone()),
    }
}

/// The URL a call to an instance is posted to: `http://ADDRESS/`.
pub fn service_call_url(instance: &ServiceInstance) -> (r: String)
    ensures
        r@ == "http://"@ + instance.address@ + "/"@,
{
    let mut v = crate::text::chars_of("http://");
    crate::text::append_str(&mut v, instance.address.as_str());
    crate::text::append_str(&mut v, "/");
    crate::text::string_from_chars(&v)
}

/// What follows attempt number `attempt` (from 0) of a call to another
/// service.
#[derive(Debug)]
pub enum CallStep {
    /// The call answered: hand back its response.
    Done(Vec<u8>),
    /// Wait this many milliseconds, then try again.
    Retry { delay_ms: u64 },
    /// Give up with the error of the last attempt.
    Fail(DockerError),
}

/// How many times a call to another service is tried.
pub open spec fn call_attempts() -> u32 {
    3
}

/// The entry point of service management: services, their instances and
/// the balancing of calls over them.
#[derive(Debug)]
pub struct ServiceManagerImpl {
    service_discovery: ServiceDiscoveryManager,
}

impl ServiceManagerImpl {
    /// The service discovery behind the manager.
    pub closed spec fn discovery(&self) -> ServiceDiscoveryManager {
        self.service_discovery
    }

    /// The service discovery behind the manager, to find services by name.
    pub fn service_discovery(&self) -> (r: &ServiceDiscoveryManager)
        ensures
            *r == self.discovery(),
    {
        &self.service_discovery
    }

    /// A manager with no service.
    pub fn new() -> (m: Self)
        ensures
            m.discovery().services().len() == 0,
            m.discovery().names().len() == 0,
            m.discovery().balanced().len() == 0,
            m.discovery().cursors().len() == 0,
    {
        ServiceManagerImpl { service_discovery: ServiceDiscoveryManager::new() }
    }

    /// Creates a service from `config` at `now`.
    pub fn create_service(&mut self, config: &ServiceConfig, now: Timestamp) -> (r: Result<ServiceInfo, DockerError>)
        ensures
            r matches Ok(s) && is_uuid_v4(s.id@) && s.deep_view() == new_service_view(s.id@, *config, now)
                && final(self).discovery().services() == assoc_insert(
                old(self).discovery().services(),
                s.id@,
                s.deep_view(),
            ) && final(self).discovery().names() == assoc_insert(
                old(self).discovery().names(),
                config.name@,
                s.id@,
            ),
            final(self).discovery().balanced() == old(self).discovery().balanced(),
            final(self).discovery().cursors() == old(self).discovery().cursors(),
    {
        Ok(self.service_discovery.register_service(config, now))
    }

    /// Deletes the service `service_id`.
    pub fn delete_service(&mut self, service_id: &str) -> (r: Result<(), DockerError>)
        ensures
            final(self).discovery().balanced() == old(self).discovery().balanced(),
            !has_key(old(self).discovery().services(), service_id@) ==> (r matches Err(e) && is_unknown_service(
                e,
                service_id@,
            ) && final(self).discovery().services() == old(self).discovery().services()),
            forall|i: int|
                key_at(old(self).discovery().services(), service_id@, i) ==> r is Ok
                    && final(self).discovery().services() == assoc_remove(
                    old(self).discovery().services(),
                    service_id@,
                ) && final(self).discovery().names() == assoc_remove(
                    old(self).discovery().names(),
                    old(self).discovery().services()[i].1.1,
                ),
    {
        self.service_discovery.deregister_service(service_id)
    }

    /// Adds to the service `service_id` a new instance for the container
    /// `container_id` reachable at `address`, running and healthy, made at
    /// `now`.
    pub fn add_service_instance(
        &mut self,
        service_id: &str,
        container_id: &str,
        container_name: &str,
        address: &str,
        now: Timestamp,
    ) -> (r: Result<ServiceInstance, DockerError>)
        ensures
            !has_key(old(self).discovery().services(), service_id@) ==> (r matches Err(e) && is_unknown_service(
                e,
                service_id@,
            ) && final(self).discovery().services() == old(self).discovery().services()),
            forall|i: int|
                key_at(old(self).discovery().services(), service_id@, i) ==> {
                    let s = old(self).discovery().services()[i].1;
                    &&& r is Ok
                    &&& is_uuid_v4(r->Ok_0.id@)
                    &&& r->Ok_0.deep_view() == new_instance_view(
                        r->Ok_0.id@,
                        service_id@,
                        container_id@,
                        container_name@,
                        address@,
                        now,
                    )
                    &&& final(self).discovery().services() == old(self).discovery().services().update(
                        i,
                        (service_id@, with_instances_at(s, s.7.push(r->Ok_0.deep_view()), now)),
                    )
                    &&& final(self).discovery().balanced() == pool_add(
                        old(self).discovery().balanced(),
                        service_id@,
                        r->Ok_0.deep_view(),
                    )
                },
    {
        let instance = ServiceInstance {
            id: new_uuid(),
            service_id: service_id.to_string(),
            container_id: container_id.to_string(),
            container_name: container_name.to_string(),
            address: address.to_string(),
            status: ServiceStatus::Running,
            health_status: true,
            created_at: now,
            updated_at: now,
        };
        self.service_discovery.register_instance(service_id, &instance, now)
    }

    /// Removes the instance `instance_id` from the service `service_id`.
    pub fn remove_service_instance(&mut self, service_id: &str, instance_id: &str, now: Timestamp) -> (r:
        Result<(), DockerError>)
        ensures
            !has_key(old(self).discovery().services(), service_id@) ==> (r matches Err(e) && is_unknown_service(
                e,
                service_id@,
            ) && final(self).discovery().services() == old(self).discovery().services()),
            forall|i: int|
                key_at(old(self).discovery().services(), service_id@, i) ==> {
                    let s = old(self).discovery().services()[i].1;
                    &&& (forall|p: int| 0 <= p < s.7.len() ==> #[trigger] s.7[p].0 != instance_id@) ==> (
                    r matches Err(e) && is_not_found(e, "instance"@, instance_id@)
                        && final(self).discovery().services() == old(self).discovery().services())
                    &&& forall|p: int|
                        0 <= p < s.7.len() && s.7[p].0 == instance_id@ && (forall|q: int|
                            0 <= q < p ==> #[trigger] s.7[q].0 != instance_id@) ==> {
                            &&& final(self).discovery().services() == old(self).discovery().services().update(
                                i,
                                (service_id@, with_instances_at(s, #[trigger] s.7.remove(p), now)),
                            )
                            &&& remove_ok(
                                old(self).discovery().balanced(),
                                instance_id@,
                                r,
                                final(self).discovery().balanced(),
                            )
                        }
                },
    {
        self.service_discovery.deregister_instance(service_id, instance_id, now)
    }

    /// All services, in the order they were created.
    pub fn list_services(&self) -> (r: Result<Vec<ServiceInfo>, DockerError>)
        ensures
            r matches Ok(l) && l.deep_view() == service_values(self.discovery().services()),
    {
        self.service_discovery.list_services()
    }

    /// The first service with the id `service_id`.
    pub fn inspect_service(&self, service_id: &str) -> (r: Result<ServiceInfo, DockerError>)
        ensures
            ({
                let l = service_values(self.discovery().services());
                &&& (forall|k: int| 0 <= k < l.len() ==> #[trigger] l[k].0 != service_id@) ==> (r matches Err(
                    e,
                ) && is_unknown_service(e, service_id@))
                &&& forall|k: int|
                    0 <= k < l.len() && l[k].0 == service_id@ && (forall|q: int|
                        0 <= q < k ==> #[trigger] l[q].0 != service_id@) ==> (r matches Ok(s) && s.deep_view()
                        == #[trigger] l[k])
            }),
    {
        let services = match self.service_discovery.list_services() {
            Ok(l) => l,
            Err(e) => return Err(e),
        };
        let ghost l = services.deep_view();
        let mut rest = services;
        let ghost mut k: int = 0;
        assert(l.skip(0) =~= l);
        while rest.len() > 0
            invariant
                0 <= k <= l.len(),
                rest.deep_view() == l.skip(k),
                l == service_values(self.discovery().services()),
                forall|q: int| 0 <= q < k ==> #[trigger] l[q].0 != service_id@,
            decreases rest.len(),
        {
            assert(rest.deep_view().len() == rest@.len());
            assert(rest.deep_view()[0] == rest@[0].deep_view());
            let ghost old_rest = rest.deep_view();
            let s = rest.remove(0);
            assert(rest.deep_view() =~= old_rest.drop_first());
            assert(s.deep_view() == l[k]);
            if str_eq_id(&s, service_id) {
                proof {
                    assert forall|k2: int|
                        0 <= k2 < l.len() && l[k2].0 == service_id@ && (forall|q: int|
                            0 <= q < k2 ==> #[trigger] l[q].0 != service_id@) implies k2 == k by {
                        if k2 < k {
                            assert(l[k2].0 != service_id@);
                        }
                        if k < k2 {
                            assert(l[k].0 != service_id@);
                        }
                    }
                    assert(l[k].0 == service_id@);
                }
                return Ok(s);
            }
            proof {
                assert(l.skip(k).drop_first() =~= l.skip(k + 1));
                k = k + 1;
            }
        }
        assert(l.skip(k).len() == 0);
        Err(DockerError::not_found("service", service_id))
    }

    /// Selects an instance of the service `service_id`, round-robin.
    pub fn load_balance(&mut self, service_id: &str) -> (r: Result<ServiceInstance, DockerError>)
        ensures
            final(self).discovery().services() == old(self).discovery().services(),
            final(self).discovery().balanced() == old(self).discovery().balanced(),
            selection_ok(
                old(self).discovery().balanced(),
                service_id@,
                r,
                round_robin_pick(count_of(old(self).discovery().cursors(), service_id@)),
            ),
    {
        self.service_discovery.load_balance(service_id)
    }

    /// What follows attempt number `attempt` (from 0) of a call to another
    /// service, given its outcome: an answer is handed back; a failure is
    /// retried after `100 * (attempt + 1)` milliseconds while attempts
    /// remain, and is the call's error after the last one.
    pub fn call_step(attempt: u32, outcome: Result<Vec<u8>, DockerError>) -> (step: CallStep)
        requires
            attempt < call_attempts(),
        ensures
            match outcome {
                Ok(resp) => step matches CallStep::Done(x) && x@ == resp@,
                Err(e) => if attempt + 1 < call_attempts() {
                    step matches CallStep::Retry { delay_ms } && delay_ms == 100 * (attempt + 1)
                } else {
                    step matches CallStep::Fail(x) && x == e
                },
            },
    {
        match outcome {
            Ok(resp) => CallStep::Done(resp),
            Err(e) => if attempt + 1 < 3 {
                CallStep::Retry { delay_ms: 100 * (attempt as u64 + 1) }
            } else {
                CallStep::Fail(e)
            },
        }
    }
}

/// Whether the service `s` has the id `id`.
fn str_eq_id(s: &ServiceInfo, id: &str) -> (b: bool)
    ensures
        b == (s.id@ == id@),
{
    crate::text::str_eq(s.id.as_str(), id)
}

/// A service registered under a name is what discovery by that name finds:
/// the name leads to the new id, and the id to the new service.
pub proof fn law_discover_after_register(
    names: Seq<(Seq<char>, Seq<char>)>,
    services: Seq<(Seq<char>, ServiceInfoView)>,
    name: Seq<char>,
    id: Seq<char>,
    info: ServiceInfoView,
)
    ensures
        has_key(assoc_insert(names, name, id), name),
        forall|i: int| #[trigger] key_at(assoc_insert(names, name, id), name, i) ==> assoc_insert(names, name, id)[i].1 == id,
        has_key(assoc_insert(services, id, info), id),
        forall|j: int| #[trigger] key_at(assoc_insert(services, id, info), id, j) ==> assoc_insert(services, id, info)[j].1 == info,
{
    law_assoc_read_after_write(names, name, id);
    law_assoc_read_after_write(services, id, info);
}

/// Once a service is deregistered (its id listed once), it is no longer
/// registered under its id.
pub proof fn law_deregistered_is_gone(services: Seq<(Seq<char>, ServiceInfoView)>, id: Seq<char>)
    requires
        keys_unique(services),
    ensures
        !has_key(assoc_remove(services, id), id),
{
    law_assoc_removed_is_gone(services, id);
}

} // verus!
