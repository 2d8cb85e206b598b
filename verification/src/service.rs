//! Services and their instances: the pools of instances that load balancers
//! choose from, the four balancing strategies, and the registry of
//! services.
use vstd::prelude::*;
use rand::Rng;
use crate::errors::{DockerError, DockerErrorKind};
use crate::text::str_eq;
use crate::types::Timestamp;
use crate::yaml::{assoc_delete, assoc_insert, assoc_put, assoc_remove};

verus! {

broadcast use vstd::string::group_string_axioms;

/// The state of a service instance.
#[derive(Debug, Clone, Copy, PartialEq, Eq, Structural)]
pub enum ServiceStatus {
    Running,
    Stopped,
    Unhealthy,
    Starting,
    Stopping,
}

/// How requests are spread over a service's instances.
#[derive(Debug, Clone, Copy, PartialEq, Eq, Structural)]
pub enum LoadBalancingStrategy {
    RoundRobin,
    Random,
    LeastConnections,
    IpHash,
}

/// What a service is created from.
#[derive(Debug, Clone)]
pub struct ServiceConfig {
    pub name: String,
    pub port: u16,
    pub network_id: String,
    pub load_balancing_strategy: LoadBalancingStrategy,
    pub health_check_path: Option<String>,
    pub health_check_interval: Option<u64>,
    pub labels: Vec<(String, String)>,
}

/// An instance of a service: a container reachable at `address`
/// (`host:port`).
#[derive(Debug, Clone)]
pub struct ServiceInstance {
    pub id: String,
    pub service_id: String,
    pub container_id: String,
    pub container_name: String,
    pub address: String,
    pub status: ServiceStatus,
    pub health_status: bool,
    pub created_at: Timestamp,
    pub updated_at: Timestamp,
}

/// The view of an instance.
pub type InstanceView = (
    Seq<char>,
    Seq<char>,
    Seq<char>,
    Seq<char>,
    Seq<char>,
    ServiceStatus,
    bool,
    Timestamp,
    Timestamp,
);

impl DeepView for ServiceInstance {
    type V = InstanceView;

    open spec fn deep_view(&self) -> InstanceView {
        (
            self.id@,
            self.service_id@,
            self.container_id@,
            self.container_name@,
            self.address@,
            self.status,
            self.health_status,
            self.created_at,
            self.updated_at,
        )
    }
}

/// A copy of an instance.
pub fn copy_instance(i: &ServiceInstance) -> (r: ServiceInstance)
    ensures
        r.deep_view() == i.deep_view(),
{
    ServiceInstance {
        id: i.id.clone(),
        service_id: i.service_id.clone(),
        container_id: i.container_id.clone(),
        container_name: i.container_name.clone(),
        address: i.address.clone(),
        status: i.status,
        health_status: i.health_status,
        created_at: i.created_at,
        updated_at: i.updated_at,
    }
}

/// An instance takes requests: it runs and its last health check passed.
pub open spec fn is_healthy(i: InstanceView) -> bool {
    i.5 == ServiceStatus::Running && i.6
}

/// The healthy instances among `s`, in order.
pub open spec fn healthy(s: Seq<InstanceView>) -> Seq<InstanceView>
    decreases s.len(),
{
    if s.len() == 0 {
        seq![]
    } else if is_healthy(s.last()) {
        healthy(s.drop_last()).push(s.last())
    } else {
        healthy(s.drop_last())
    }
}

/// The healthy instances are among the instances.
pub proof fn lemma_healthy_sub(s: Seq<InstanceView>)
    ensures
        healthy(s).len() <= s.len(),
        forall|k: int| 0 <= k < healthy(s).len() ==> is_healthy(#[trigger] healthy(s)[k]) && s.contains(healthy(s)[k]),
    decreases s.len(),
{
    if s.len() > 0 {
        lemma_healthy_sub(s.drop_last());
        let h = healthy(s.drop_last());
        assert forall|k: int| 0 <= k < healthy(s).len() implies is_healthy(#[trigger] healthy(s)[k]) && s.contains(healthy(s)[k]) by {
            if k < h.len() {
                assert(healthy(s)[k] == h[k]);
                let w = choose|w: int| 0 <= w < s.drop_last().len() && s.drop_last()[w] == h[k];
                assert(s[w] == h[k]);
            } else {
                assert(healthy(s)[k] == s.last());
                assert(s[s.len() - 1] == s.last());
            }
        }
    }
}

/// The healthy instances of a list.
fn healthy_of(instances: &Vec<ServiceInstance>) -> (r: Vec<usize>)
    ensures
        r@.len() == healthy(instances.deep_view()).len(),
        forall|k: int|
            0 <= k < r@.len() ==> #[trigger] r@[k] < instances@.len() && instances.deep_view()[r@[k] as int]
                == healthy(instances.deep_view())[k],
{
    let ghost v = instances.deep_view();
    let mut r: Vec<usize> = Vec::new();
    let mut i: usize = 0;
    while i < instances.len()
        invariant
            i <= instances.len(),
            v == instances.deep_view(),
            r@.len() == healthy(v.take(i as int)).len(),
            forall|k: int|
                0 <= k < r@.len() ==> #[trigger] r@[k] < i && v[r@[k] as int] == healthy(v.take(i as int))[k],
        decreases instances.len() - i,
    {
        assert(v.take(i + 1).drop_last() =~= v.take(i as int));
        assert(v.take(i + 1).last() == v[i as int]);
        let ghost before = r@;
        if instances[i].status == ServiceStatus::Running && instances[i].health_status {
            r.push(i);
            assert forall|k: int| 0 <= k < r@.len() implies #[trigger] r@[k] < i + 1 && v[r@[k] as int]
                == healthy(v.take(i + 1))[k] by {
                if k < before.len() {
                    assert(r@[k] == before[k]);
                }
            }
        }
        i = i + 1;
    }
    assert(v.take(instances.len() as int) =~= v);
    r
}

/// The position of the instance `id` in a list, if it is there.
pub(crate) fn position_of(instances: &Vec<ServiceInstance>, id: &str) -> (r: Option<usize>)
    ensures
        match r {
            Some(p) => p < instances@.len() && instances@[p as int].id@ == id@ && forall|j: int|
                0 <= j < p ==> #[trigger] instances@[j].id@ != id@,
            None => forall|j: int| 0 <= j < instances@.len() ==> #[trigger] instances@[j].id@ != id@,
        },
{
    let mut i: usize = 0;
    while i < instances.len()
        invariant
            i <= instances.len(),
            forall|j: int| 0 <= j < i ==> #[trigger] instances@[j].id@ != id@,
        decreases instances.len() - i,
    {
        if str_eq(instances[i].id.as_str(), id) {
            return Some(i);
        }
        i = i + 1;
    }
    None
}

// ---------------------------------------------------------------------------
// Pools of instances, by service.

/// The instances of each service, in the order services were first given
/// an instance and instances were added.
#[derive(Debug)]
pub struct InstancePool {
    services: Vec<(String, Vec<ServiceInstance>)>,
}

/// `i` is the position of the first entry of `s` for the service `id`.
pub open spec fn service_at(s: Seq<(Seq<char>, Seq<InstanceView>)>, id: Seq<char>, i: int) -> bool {
    &&& 0 <= i < s.len()
    &&& s[i].0 == id
    &&& forall|j: int| 0 <= j < i ==> #[trigger] s[j].0 != id
}

/// Some entry of `s` is for the service `id`.
pub open spec fn has_service(s: Seq<(Seq<char>, Seq<InstanceView>)>, id: Seq<char>) -> bool {
    exists|i: int| 0 <= i < s.len() && #[trigger] s[i].0 == id
}

/// The error for a service or an instance that is not known.
pub open spec fn is_not_found(e: DockerError, kind: Seq<char>, id: Seq<char>) -> bool {
    *e.kind matches DockerErrorKind::ResourceNotFound { resource_type, identifier }
        && resource_type@ == kind && identifier@ == id
}

/// The error for a service without a healthy instance.
pub open spec fn is_no_healthy(e: DockerError) -> bool {
    *e.kind matches DockerErrorKind::InternalError { reason }
        && reason@ == "No healthy instances available"@
}

/// The entries of `s` with the instances `is` of the entry at `i`.
pub open spec fn with_instances(
    s: Seq<(Seq<char>, Seq<InstanceView>)>,
    i: int,
    is: Seq<InstanceView>,
) -> Seq<(Seq<char>, Seq<InstanceView>)> {
    s.update(i, (s[i].0, is))
}

/// `(i, p)` is the first place of the instance `id`: the first service
/// holding it, and its first position there.
pub open spec fn instance_at(s: Seq<(Seq<char>, Seq<InstanceView>)>, id: Seq<char>, i: int, p: int) -> bool {
    &&& 0 <= i < s.len()
    &&& 0 <= p < s[i].1.len()
    &&& s[i].1[p].0 == id
    &&& forall|q: int| 0 <= q < p ==> #[trigger] s[i].1[q].0 != id
    &&& forall|j: int, q: int| 0 <= j < i && 0 <= q < s[j].1.len() ==> #[trigger] s[j].1[q].0 != id
}

/// Some service holds the instance `id`.
pub open spec fn holds_instance(s: Seq<(Seq<char>, Seq<InstanceView>)>, id: Seq<char>) -> bool {
    exists|i: int, p: int| 0 <= i < s.len() && 0 <= p < s[i].1.len() && #[trigger] s[i].1[p].0 == id
}

/// `s` with the instance `inst` of the service `svc` added: to the first
/// entry of the service, or in a new entry at the end.
pub open spec fn pool_add(s: Seq<(Seq<char>, Seq<InstanceView>)>, svc: Seq<char>, inst: InstanceView) -> Seq<
    (Seq<char>, Seq<InstanceView>),
>
    decreases s.len(),
{
    if s.len() == 0 {
        seq![(svc, seq![inst])]
    } else if s[0].0 == svc {
        seq![(s[0].0, s[0].1.push(inst))] + s.drop_first()
    } else {
        seq![s[0]] + pool_add(s.drop_first(), svc, inst)
    }
}

/// Adding to a pool adds to the first entry of the service, or at the end.
pub proof fn lemma_pool_add(s: Seq<(Seq<char>, Seq<InstanceView>)>, svc: Seq<char>, inst: InstanceView)
    ensures
        forall|i: int| service_at(s, svc, i) ==> pool_add(s, svc, inst) == with_instances(s, i, s[i].1.push(inst)),
        !has_service(s, svc) ==> pool_add(s, svc, inst) == s.push((svc, seq![inst])),
    decreases s.len(),
{
    if s.len() == 0 {
        assert(pool_add(s, svc, inst) =~= s.push((svc, seq![inst])));
    } else if s[0].0 == svc {
        assert forall|i: int| service_at(s, svc, i) implies pool_add(s, svc, inst) == with_instances(s, i, s[i].1.push(inst)) by {
            if i > 0 {
                assert(s[0].0 != svc);
            }
            assert(pool_add(s, svc, inst) =~= with_instances(s, 0, s[0].1.push(inst)));
        }
        assert(s[0].0 == svc);
    } else {
        let t = s.drop_first();
        lemma_pool_add(t, svc, inst);
        assert forall|i: int| service_at(s, svc, i) implies pool_add(s, svc, inst) == with_instances(s, i, s[i].1.push(inst)) by {
            assert(i > 0);
            assert(service_at(t, svc, i - 1)) by {
                assert forall|j: int| 0 <= j < i - 1 implies #[trigger] t[j].0 != svc by {
                    assert(t[j] == s[j + 1]);
                }
            }
            assert(pool_add(s, svc, inst) =~= with_instances(s, i, s[i].1.push(inst)));
        }
        if !has_service(s, svc) {
            assert(!has_service(t, svc)) by {
                if has_service(t, svc) {
                    let w = choose|w: int| 0 <= w < t.len() && #[trigger] t[w].0 == svc;
                    assert(s[w + 1].0 == svc);
                }
            }
            assert(pool_add(s, svc, inst) =~= s.push((svc, seq![inst])));
        }
    }
}

/// `t` is the pool `s` after `instance` replaced the instance with its id in
/// its service, with the outcome `r`: unknown services and instances fail
/// and leave the pool alone.
pub open spec fn update_ok(
    s: Seq<(Seq<char>, Seq<InstanceView>)>,
    instance: InstanceView,
    r: Result<(), DockerError>,
    t: Seq<(Seq<char>, Seq<InstanceView>)>,
) -> bool {
    &&& !has_service(s, instance.1) ==> (r matches Err(e) && is_not_found(e, "service"@, instance.1)
        && t == s)
    &&& forall|i: int|
        service_at(s, instance.1, i) ==> {
            let list = s[i].1;
            &&& (forall|p: int| 0 <= p < list.len() ==> #[trigger] list[p].0 != instance.0) ==> (
            r matches Err(e) && is_not_found(e, "instance"@, instance.0) && t == s)
            &&& forall|p: int|
                0 <= p < list.len() && list[p].0 == instance.0 && (forall|q: int|
                    0 <= q < p ==> #[trigger] list[q].0 != instance.0) ==> r is Ok && t
                    == with_instances(s, i, #[trigger] list.update(p, instance))
        }
}

/// `t` is the pool `s` after the instance `id` was removed from the first
/// service holding it, with the outcome `r`: an instance no service holds
/// fails and leaves the pool alone.
pub open spec fn remove_ok(
    s: Seq<(Seq<char>, Seq<InstanceView>)>,
    id: Seq<char>,
    r: Result<(), DockerError>,
    t: Seq<(Seq<char>, Seq<InstanceView>)>,
) -> bool {
    &&& !holds_instance(s, id) ==> (r matches Err(e) && is_not_found(e, "instance"@, id) && t == s)
    &&& forall|i: int, p: int|
        instance_at(s, id, i, p) ==> r is Ok && t == with_instances(s, i, s[i].1.remove(p))
}

impl InstancePool {
    /// The instances of each service.
    pub closed spec fn contents(&self) -> Seq<(Seq<char>, Seq<InstanceView>)> {
        self.services.deep_view()
    }

    /// An empty pool.
    pub fn new() -> (p: Self)
        ensures
            p.contents() == Seq::<(Seq<char>, Seq<InstanceView>)>::empty(),
    {
        let p = InstancePool { services: Vec::new() };
        assert(p.contents() =~= Seq::<(Seq<char>, Seq<InstanceView>)>::empty());
        p
    }

    /// The position of the service `id`, if it has instances.
    pub fn find_service(&self, id: &str) -> (r: Option<usize>)
        ensures
            match r {
                Some(i) => service_at(self.contents(), id@, i as int),
                None => !has_service(self.contents(), id@),
            },
    {
        let mut i: usize = 0;
        while i < self.services.len()
            invariant
                i <= self.services.len(),
                forall|j: int| 0 <= j < i ==> #[trigger] self.contents()[j].0 != id@,
            decreases self.services.len() - i,
        {
            assert(self.contents()[i as int].0 == self.services@[i as int].0@);
            if str_eq(self.services[i].0.as_str(), id) {
                return Some(i);
            }
            i = i + 1;
        }
        None
    }

    /// Adds an instance to its service, which is created when it has none.
    pub fn add_instance(&mut self, instance: &ServiceInstance)
        ensures
            final(self).contents() == pool_add(old(self).contents(), instance.service_id@, instance.deep_view()),
    {
        let ghost before = self.contents();
        proof {
            lemma_pool_add(before, instance.service_id@, instance.deep_view());
        }
        match self.find_service(instance.service_id.as_str()) {
            Some(i) => {
                let (k, mut list) = self.services.remove(i);
                let ghost lv = list.deep_view();
                list.push(copy_instance(instance));
                assert(list.deep_view() =~= lv.push(instance.deep_view()));
                self.services.insert(i, (k, list));
                assert(self.contents() =~= with_instances(before, i as int, before[i as int].1.push(instance.deep_view())));
                proof {
                    assert forall|j: int| service_at(before, instance.service_id@, j) implies j == i by {
                        if j < i {
                            assert(before[j].0 != instance.service_id@);
                        }
                        if i < j {
                            assert(before[i as int].0 != instance.service_id@);
                        }
                    }
                }
            },
            None => {
                let mut list: Vec<ServiceInstance> = Vec::new();
                list.push(copy_instance(instance));
                assert(list.deep_view() =~= seq![instance.deep_view()]);
                self.services.push((instance.service_id.clone(), list));
                assert(self.contents() =~= before.push((instance.service_id@, seq![instance.deep_view()])));
            },
        }
    }

    /// Replaces the instance with the id of `instance` in its service; fails
    /// when the service or the instance is not known.
    pub fn update_instance(&mut self, instance: &ServiceInstance) -> (r: Result<(), DockerError>)
        ensures
            update_ok(old(self).contents(), instance.deep_view(), r, final(self).contents()),
    {
        let ghost before = self.contents();
        match self.find_service(instance.service_id.as_str()) {
            Some(i) => {
                proof {
                    assert forall|j: int| service_at(before, instance.service_id@, j) implies j == i by {
                        if j < i {
                            assert(before[j].0 != instance.service_id@);
                        }
                        if i < j {
                            assert(before[i as int].0 != instance.service_id@);
                        }
                    }
                }
                let ghost list = before[i as int].1;
                assert(list == self.services@[i as int].1.deep_view());
                match position_of(&self.services[i].1, instance.id.as_str()) {
                    Some(p) => {
                        let (k, mut l) = self.services.remove(i);
                        let ghost lv = l.deep_view();
                        assert(lv[p as int].0 == instance.id@);
                        l.set(p, copy_instance(instance));
                        assert(l.deep_view() =~= lv.update(p as int, instance.deep_view()));
                        self.services.insert(i, (k, l));
                        assert(self.contents() =~= with_instances(before, i as int, list.update(p as int, instance.deep_view())));
                        proof {
                            assert forall|p2: int|
                                0 <= p2 < list.len() && list[p2].0 == instance.id@ && (forall|q: int|
                                    0 <= q < p2 ==> #[trigger] list[q].0 != instance.id@) implies p2 == p by {
                                if p2 < p {
                                    assert(self.services@[i as int].1@[p2].id@ == list[p2].0);
                                }
                                if p < p2 {
                                    assert(list[p as int].0 == instance.id@);
                                }
                            }
                        }
                        Ok(())
                    },
                    None => {
                        assert forall|p: int| 0 <= p < list.len() implies #[trigger] list[p].0 != instance.id@ by {
                            assert(list[p].0 == self.services@[i as int].1@[p].id@);
                        }
                        Err(DockerError::not_found("instance", instance.id.as_str()))
                    },
                }
            },
            None => Err(DockerError::not_found("service", instance.service_id.as_str())),
        }
    }

    /// Removes the instance `id` from the first service holding it; fails
    /// when no service holds it.
    pub fn remove_instance(&mut self, id: &str) -> (r: Result<(), DockerError>)
        ensures
            remove_ok(old(self).contents(), id@, r, final(self).contents()),
    {
        let ghost before = self.contents();
        let mut i: usize = 0;
        while i < self.services.len()
            invariant
                i <= self.services.len(),
                self.contents() == before,
                before == old(self).contents(),
                forall|j: int, q: int|
                    0 <= j < i && 0 <= q < before[j].1.len() ==> #[trigger] before[j].1[q].0 != id@,
            decreases self.services.len() - i,
        {
            assert(before[i as int].1 == self.services@[i as int].1.deep_view());
            match position_of(&self.services[i].1, id) {
                Some(p) => {
                    let ghost list = before[i as int].1;
                    assert forall|q: int| 0 <= q < p implies #[trigger] list[q].0 != id@ by {
                        assert(list[q].0 == self.services@[i as int].1@[q].id@);
                    }
                    let (k, mut l) = self.services.remove(i);
                    let ghost lv = l.deep_view();
                    let _ = l.remove(p);
                    assert(l.deep_view() =~= lv.remove(p as int));
                    self.services.insert(i, (k, l));
                    assert(self.contents() =~= with_instances(before, i as int, list.remove(p as int)));
                    proof {
                        assert(instance_at(before, id@, i as int, p as int));
                        assert(before[i as int].1[p as int].0 == id@);
                        assert(holds_instance(before, id@));
                        assert forall|i2: int, p2: int| instance_at(before, id@, i2, p2) implies i2 == i && p2 == p by {
                            if i2 < i {
                                assert(before[i2].1[p2].0 != id@);
                            }
                            if i < i2 {
                                assert(before[i as int].1[p as int].0 == id@);
                            }
                            if i2 == i && p2 < p {
                                assert(list[p2].0 != id@);
                            }
                            if i2 == i && p < p2 {
                                assert(list[p as int].0 == id@);
                            }
                        }
                    }
                    return Ok(());
                },
                None => {
                    assert forall|q: int| 0 <= q < before[i as int].1.len() implies #[trigger] before[i as int].1[q].0
                        != id@ by {
                        assert(before[i as int].1[q].0 == self.services@[i as int].1@[q].id@);
                    }
                },
            }
            i = i + 1;
        }
        proof {
            if holds_instance(before, id@) {
                let (a, b) = choose|a: int, b: int| 0 <= a < before.len() && 0 <= b < before[a].1.len()
                    && #[trigger] before[a].1[b].0 == id@;
                assert(before[a].1[b].0 != id@);
            }
            assert forall|i2: int, p2: int| !instance_at(before, id@, i2, p2) by {
                if instance_at(before, id@, i2, p2) {
                    assert(before[i2].1[p2].0 != id@);
                }
            }
        }
        Err(DockerError::not_found("instance", id))
    }
}


// ---------------------------------------------------------------------------
// Counters by id.

/// The count bound to `k` in `m`, or 0 (the first binding counts).
pub open spec fn count_of(m: Seq<(Seq<char>, usize)>, k: Seq<char>) -> usize
    decreases m.len(),
{
    if m.len() == 0 {
        0
    } else if m[0].0 == k {
        m[0].1
    } else {
        count_of(m.drop_first(), k)
    }
}

/// Some binding of `m` is for `k`.
pub open spec fn has_count(m: Seq<(Seq<char>, usize)>, k: Seq<char>) -> bool {
    exists|i: int| 0 <= i < m.len() && #[trigger] m[i].0 == k
}

/// The count bound to `k`, or 0.
fn count_in(m: &Vec<(String, usize)>, k: &str) -> (r: usize)
    ensures
        r == count_of(m.deep_view(), k@),
{
    let ghost mv = m.deep_view();
    let mut i: usize = 0;
    assert(mv.skip(0) =~= mv);
    while i < m.len()
        invariant
            i <= m.len(),
            mv == m.deep_view(),
            count_of(mv, k@) == count_of(mv.skip(i as int), k@),
        decreases m.len() - i,
    {
        assert(mv.skip(i as int)[0] == mv[i as int]);
        assert(mv[i as int] == (m@[i as int].0@, m@[i as int].1));
        if str_eq(m[i].0.as_str(), k) {
            return m[i].1;
        }
        assert(mv.skip(i as int).drop_first() =~= mv.skip(i + 1));
        i = i + 1;
    }
    0
}

/// Whether some binding is for `k`.
fn has_count_in(m: &Vec<(String, usize)>, k: &str) -> (r: bool)
    ensures
        r == has_count(m.deep_view(), k@),
{
    let mut i: usize = 0;
    while i < m.len()
        invariant
            i <= m.len(),
            forall|j: int| 0 <= j < i ==> #[trigger] m.deep_view()[j].0 != k@,
        decreases m.len() - i,
    {
        assert(m.deep_view()[i as int].0 == m@[i as int].0@);
        if str_eq(m[i].0.as_str(), k) {
            return true;
        }
        i = i + 1;
    }
    false
}

// ---------------------------------------------------------------------------
// The balancers.

/// The count after `c`, wrapping around to 0 after the largest `usize`.
pub open spec fn next_count(c: usize) -> usize {
    if c == usize::MAX {
        0
    } else {
        (c + 1) as usize
    }
}

/// A random index below `n` (rand's `gen_range(0..n)` on the thread's
/// generator).
#[verifier::external_body]
fn random_below(n: usize) -> (r: usize)
    requires
        n > 0,
    ensures
        r < n,
{
    rand::thread_rng().gen_range(0..n)
}

/// The healthy instances of the service at position `i` of a pool.
pub open spec fn healthy_at(s: Seq<(Seq<char>, Seq<InstanceView>)>, i: int) -> Seq<InstanceView> {
    healthy(s[i].1)
}

/// The outcome of a selection among the instances of the service `id`:
/// unknown services and services without a healthy instance fail, and
/// otherwise `pick` holds of the position picked among the healthy ones.
pub open spec fn selection_ok(
    s: Seq<(Seq<char>, Seq<InstanceView>)>,
    id: Seq<char>,
    r: Result<ServiceInstance, DockerError>,
    pick: spec_fn(Seq<InstanceView>, int) -> bool,
) -> bool {
    &&& !has_service(s, id) ==> (r matches Err(e) && is_not_found(e, "service"@, id))
    &&& forall|i: int|
        service_at(s, id, i) ==> {
            let h = healthy_at(s, i);
            &&& h.len() == 0 ==> (r matches Err(e) && is_no_healthy(e))
            &&& h.len() > 0 ==> (r matches Ok(inst) && exists|k: int|
                0 <= k < h.len() && #[trigger] pick(h, k) && inst.deep_view() == h[k])
        }
}

/// The healthy instances of the service `id`, as positions in its list,
/// or the error of a selection there.
fn healthy_positions(pool: &InstancePool, id: &str) -> (r: Result<(usize, Vec<usize>), DockerError>)
    ensures
        match r {
            Ok((i, hs)) => service_at(pool.contents(), id@, i as int) && hs@.len() > 0 && hs@.len()
                == healthy_at(pool.contents(), i as int).len() && forall|k: int|
                0 <= k < hs@.len() ==> #[trigger] hs@[k] < pool.services@[i as int].1@.len()
                    && pool.services@[i as int].1.deep_view()[hs@[k] as int] == healthy_at(
                    pool.contents(),
                    i as int,
                )[k],
            Err(e) => {
                ||| !has_service(pool.contents(), id@) && is_not_found(e, "service"@, id@)
                ||| exists|i: int|
                    service_at(pool.contents(), id@, i) && healthy_at(pool.contents(), i).len() == 0
                        && is_no_healthy(e)
            },
        },
        i_valid(pool, r),
{
    match pool.find_service(id) {
        Some(i) => {
            assert(pool.contents()[i as int].1 == pool.services@[i as int].1.deep_view());
            let hs = healthy_of(&pool.services[i].1);
            if hs.len() == 0 {
                return Err(DockerError::internal("No healthy instances available"));
            }
            Ok((i, hs))
        },
        None => Err(DockerError::not_found("service", id)),
    }
}

/// A position found in a pool is a position of its services.
spec fn i_valid(pool: &InstancePool, r: Result<(usize, Vec<usize>), DockerError>) -> bool {
    r matches Ok((i, _)) ==> i < pool.services@.len()
}

/// A service has one first position.
pub proof fn lemma_service_at_unique(s: Seq<(Seq<char>, Seq<InstanceView>)>, id: Seq<char>, i: int, j: int)
    requires
        service_at(s, id, i),
        service_at(s, id, j),
    ensures
        i == j,
{
    if i < j {
        assert(s[i].0 != id);
    }
    if j < i {
        assert(s[j].0 != id);
    }
}

/// Picks the healthy instance at the cursor's position, cyclically.
pub open spec fn round_robin_pick(cursor: usize) -> spec_fn(Seq<InstanceView>, int) -> bool {
    |h: Seq<InstanceView>, k: int| k == cursor as int % h.len() as int
}

/// Picks any healthy instance.
pub open spec fn any_pick() -> spec_fn(Seq<InstanceView>, int) -> bool {
    |h: Seq<InstanceView>, k: int| true
}

/// Balances by taking the healthy instances of a service in turn.
#[derive(Debug)]
pub struct RoundRobinLoadBalancer {
    pool: InstancePool,
    cursors: Vec<(String, usize)>,
}

impl RoundRobinLoadBalancer {
    /// The instances of each service.
    pub closed spec fn contents(&self) -> Seq<(Seq<char>, Seq<InstanceView>)> {
        self.pool.contents()
    }

    /// How many selections each service has served.
    pub closed spec fn cursors(&self) -> Seq<(Seq<char>, usize)> {
        self.cursors.deep_view()
    }

    /// A balancer with no service.
    pub fn new() -> (b: Self)
        ensures
            b.contents().len() == 0,
            b.cursors().len() == 0,
    {
        let b = RoundRobinLoadBalancer { pool: InstancePool::new(), cursors: Vec::new() };
        assert(b.cursors() =~= Seq::<(Seq<char>, usize)>::empty());
        b
    }

    /// Selects the next healthy instance of the service `service_id`: the
    /// one at the service's cursor, cyclically over its healthy instances,
    /// and moves the cursor on.
    pub fn select_instance(&mut self, service_id: &str) -> (r: Result<ServiceInstance, DockerError>)
        ensures
            selection_ok(
                old(self).contents(),
                service_id@,
                r,
                round_robin_pick(count_of(old(self).cursors(), service_id@)),
            ),
            final(self).contents() == old(self).contents(),
            r is Ok ==> final(self).cursors() == assoc_insert(
                old(self).cursors(),
                service_id@,
                next_count(count_of(old(self).cursors(), service_id@)),
            ),
            r is Err ==> final(self).cursors() == old(self).cursors(),
    {
        match healthy_positions(&self.pool, service_id) {
            Ok((i, hs)) => {
                let cursor = count_in(&self.cursors, service_id);
                let k = cursor % hs.len();
                let inst = copy_instance(&self.pool.services[i].1[hs[k]]);
                assert(inst.deep_view() == healthy_at(self.contents(), i as int)[k as int]);
                let next = if cursor == usize::MAX { 0 } else { cursor + 1 };
                assoc_put(&mut self.cursors, service_id.to_string(), next);
                proof {
                    assert forall|j: int| service_at(self.contents(), service_id@, j) implies j == i by {
                        lemma_service_at_unique(self.contents(), service_id@, i as int, j);
                    }
                    assert(round_robin_pick(cursor)(healthy_at(self.contents(), i as int), k as int));
                }
                Ok(inst)
            },
            Err(e) => {
                proof {
                    if has_service(self.contents(), service_id@) {
                        let j = choose|j: int|
                            service_at(self.contents(), service_id@, j) && healthy_at(self.contents(), j).len()
                                == 0 && is_no_healthy(e);
                        assert forall|j2: int| service_at(self.contents(), service_id@, j2) implies j2 == j by {
                            lemma_service_at_unique(self.contents(), service_id@, j, j2);
                        }
                    }
                }
                Err(e)
            },
        }
    }

    /// Adds an instance to its service.
    pub fn add_instance(&mut self, instance: &ServiceInstance)
        ensures
            final(self).contents() == pool_add(old(self).contents(), instance.service_id@, instance.deep_view()),
            final(self).cursors() == old(self).cursors(),
    {
        self.pool.add_instance(instance);
    }

    /// Replaces the instance with the id of `instance` in its service.
    pub fn update_instance(&mut self, instance: &ServiceInstance) -> (r: Result<(), DockerError>)
        ensures
            update_ok(old(self).contents(), instance.deep_view(), r, final(self).contents()),
            final(self).cursors() == old(self).cursors(),
    {
        self.pool.update_instance(instance)
    }

    /// Removes the instance `instance_id`.
    pub fn remove_instance(&mut self, instance_id: &str) -> (r: Result<(), DockerError>)
        ensures
            remove_ok(old(self).contents(), instance_id@, r, final(self).contents()),
            final(self).cursors() == old(self).cursors(),
    {
        self.pool.remove_instance(instance_id)
    }
}

/// Balances by taking any healthy instance of a service, at random.
#[derive(Debug)]
pub struct RandomLoadBalancer {
    pool: InstancePool,
}

impl RandomLoadBalancer {
    /// The instances of each service.
    pub closed spec fn contents(&self) -> Seq<(Seq<char>, Seq<InstanceView>)> {
        self.pool.contents()
    }

    /// A balancer with no service.
    pub fn new() -> (b: Self)
        ensures
            b.contents().len() == 0,
    {
        RandomLoadBalancer { pool: InstancePool::new() }
    }

    /// Selects a healthy instance of the service `service_id` at random.
    pub fn select_instance(&self, service_id: &str) -> (r: Result<ServiceInstance, DockerError>)
        ensures
            selection_ok(self.contents(), service_id@, r, any_pick()),
    {
        match healthy_positions(&self.pool, service_id) {
            Ok((i, hs)) => {
                let k = random_below(hs.len());
                let inst = copy_instance(&self.pool.services[i].1[hs[k]]);
                proof {
                    assert forall|j: int| service_at(self.contents(), service_id@, j) implies j == i by {
                        lemma_service_at_unique(self.contents(), service_id@, i as int, j);
                    }
                    assert(any_pick()(healthy_at(self.contents(), i as int), k as int));
                }
                Ok(inst)
            },
            Err(e) => {
                proof {
                    if has_service(self.contents(), service_id@) {
                        let j = choose|j: int|
                            service_at(self.contents(), service_id@, j) && healthy_at(self.contents(), j).len()
                                == 0 && is_no_healthy(e);
                        assert forall|j2: int| service_at(self.contents(), service_id@, j2) implies j2 == j by {
                            lemma_service_at_unique(self.contents(), service_id@, j, j2);
                        }
                    }
                }
                Err(e)
            },
        }
    }

    /// Adds an instance to its service.
    pub fn add_instance(&mut self, instance: &ServiceInstance)
        ensures
            final(self).contents() == pool_add(old(self).contents(), instance.service_id@, instance.deep_view()),
    {
        self.pool.add_instance(instance);
    }

    /// Replaces the instance with the id of `instance` in its service.
    pub fn update_instance(&mut self, instance: &ServiceInstance) -> (r: Result<(), DockerError>)
        ensures
            update_ok(old(self).contents(), instance.deep_view(), r, final(self).contents()),
    {
        self.pool.update_instance(instance)
    }

    /// Removes the instance `instance_id`.
    pub fn remove_instance(&mut self, instance_id: &str) -> (r: Result<(), DockerError>)
        ensures
            remove_ok(old(self).contents(), instance_id@, r, final(self).contents()),
    {
        self.pool.remove_instance(instance_id)
    }
}

/// The position among `h` of the first instance with the fewest
/// connections in `conns` (instances without a count have none).
pub open spec fn least_index(h: Seq<InstanceView>, conns: Seq<(Seq<char>, usize)>) -> int
    decreases h.len(),
{
    if h.len() <= 1 {
        0
    } else {
        let k = least_index(h.drop_last(), conns);
        if count_of(conns, h.last().0) < count_of(conns, h[k].0) {
            h.len() - 1
        } else {
            k
        }
    }
}

/// The instance that least-connections balancing picks is one of the
/// healthy instances and has no more open connections than any of them.
pub proof fn lemma_least_index_bound(h: Seq<InstanceView>, conns: Seq<(Seq<char>, usize)>)
    requires
        h.len() > 0,
    ensures
        0 <= least_index(h, conns) < h.len(),
        forall|j: int| 0 <= j < h.len() ==> count_of(conns, h[least_index(h, conns)].0) <= count_of(conns, #[trigger] h[j].0),
    decreases h.len(),
{
    if h.len() > 1 {
        lemma_least_index_bound(h.drop_last(), conns);
        let k = least_index(h.drop_last(), conns);
        assert(h.drop_last()[k] == h[k]);
        assert forall|j: int| 0 <= j < h.len() implies count_of(conns, h[least_index(h, conns)].0) <= count_of(conns, #[trigger] h[j].0) by {
            if j < h.len() - 1 {
                assert(h.drop_last()[j] == h[j]);
            }
        }
    }
}

/// Picks the first healthy instance with the fewest connections.
pub open spec fn least_pick(conns: Seq<(Seq<char>, usize)>) -> spec_fn(Seq<InstanceView>, int) -> bool {
    |h: Seq<InstanceView>, k: int| k == least_index(h, conns)
}

/// Balances by taking the healthy instance with the fewest open
/// connections, counting the connections it hands out.
#[derive(Debug)]
pub struct LeastConnectionsLoadBalancer {
    pool: InstancePool,
    connections: Vec<(String, usize)>,
}

impl LeastConnectionsLoadBalancer {
    /// The instances of each service.
    pub closed spec fn contents(&self) -> Seq<(Seq<char>, Seq<InstanceView>)> {
        self.pool.contents()
    }

    /// The open connections of each instance.
    pub closed spec fn connections(&self) -> Seq<(Seq<char>, usize)> {
        self.connections.deep_view()
    }

    /// A balancer with no service.
    pub fn new() -> (b: Self)
        ensures
            b.contents().len() == 0,
            b.connections().len() == 0,
    {
        let b = LeastConnectionsLoadBalancer { pool: InstancePool::new(), connections: Vec::new() };
        assert(b.connections() =~= Seq::<(Seq<char>, usize)>::empty());
        b
    }

    /// Selects the first healthy instance of the service `service_id` with
    /// the fewest open connections, and counts one more connection to it.
    pub fn select_instance(&mut self, service_id: &str) -> (r: Result<ServiceInstance, DockerError>)
        ensures
            selection_ok(old(self).contents(), service_id@, r, least_pick(old(self).connections())),
            final(self).contents() == old(self).contents(),
            r matches Ok(inst) ==> final(self).connections() == assoc_insert(
                old(self).connections(),
                inst.id@,
                next_count(count_of(old(self).connections(), inst.id@)),
            ),
            r is Err ==> final(self).connections() == old(self).connections(),
    {
        match healthy_positions(&self.pool, service_id) {
            Ok((i, hs)) => {
                let ghost h = healthy_at(self.contents(), i as int);
                let ghost conns = self.connections();
                let list = &self.pool.services[i].1;
                let mut best: usize = 0;
                let mut best_count = count_in(&self.connections, list[hs[0]].id.as_str());
                let mut k: usize = 1;
                assert(h.take(1).len() == 1);
                while k < hs.len()
                    invariant
                        1 <= k <= hs.len(),
                        hs@.len() == h.len(),
                        conns == self.connections.deep_view(),
                        forall|m: int|
                            0 <= m < hs@.len() ==> #[trigger] hs@[m] < list@.len() && list.deep_view()[hs@[m] as int]
                                == h[m],
                        best == least_index(h.take(k as int), conns),
                        best < k,
                        best_count == count_of(conns, h[best as int].0),
                    decreases hs.len() - k,
                {
                    assert(h.take(k + 1).drop_last() =~= h.take(k as int));
                    assert(h.take(k + 1).last() == h[k as int]);
                    assert(h.take(k as int)[best as int] == h[best as int]);
                    assert(list.deep_view()[hs@[k as int] as int].0 == list@[hs@[k as int] as int].id@);
                    let c = count_in(&self.connections, list[hs[k]].id.as_str());
                    if c < best_count {
                        best = k;
                        best_count = c;
                    }
                    k = k + 1;
                }
                assert(h.take(hs.len() as int) =~= h);
                let inst = copy_instance(&list[hs[best]]);
                let next = if best_count == usize::MAX { 0 } else { best_count + 1 };
                assoc_put(&mut self.connections, inst.id.clone(), next);
                proof {
                    assert forall|j: int| service_at(self.contents(), service_id@, j) implies j == i by {
                        lemma_service_at_unique(self.contents(), service_id@, i as int, j);
                    }
                    assert(least_pick(conns)(h, best as int));
                }
                Ok(inst)
            },
            Err(e) => {
                proof {
                    if has_service(self.contents(), service_id@) {
                        let j = choose|j: int|
                            service_at(self.contents(), service_id@, j) && healthy_at(self.contents(), j).len()
                                == 0 && is_no_healthy(e);
                        assert forall|j2: int| service_at(self.contents(), service_id@, j2) implies j2 == j by {
                            lemma_service_at_unique(self.contents(), service_id@, j, j2);
                        }
                    }
                }
                Err(e)
            },
        }
    }

    /// Adds an instance to its service.
    pub fn add_instance(&mut self, instance: &ServiceInstance)
        ensures
            final(self).contents() == pool_add(old(self).contents(), instance.service_id@, instance.deep_view()),
            final(self).connections() == old(self).connections(),
    {
        self.pool.add_instance(instance);
    }

    /// Replaces the instance with the id of `instance` in its service.
    pub fn update_instance(&mut self, instance: &ServiceInstance) -> (r: Result<(), DockerError>)
        ensures
            update_ok(old(self).contents(), instance.deep_view(), r, final(self).contents()),
            final(self).connections() == old(self).connections(),
    {
        self.pool.update_instance(instance)
    }

    /// Forgets the connections of the instance `instance_id` and removes it.
    pub fn remove_instance(&mut self, instance_id: &str) -> (r: Result<(), DockerError>)
        ensures
            remove_ok(old(self).contents(), instance_id@, r, final(self).contents()),
            final(self).connections() == assoc_remove(old(self).connections(), instance_id@),
    {
        assoc_delete(&mut self.connections, instance_id);
        self.pool.remove_instance(instance_id)
    }
}

/// Counts one connection to the instance `instance_id` as closed (a count
/// of zero stays zero); fails when the instance has no count.
pub fn decrease_connections(load_balancer: &mut LeastConnectionsLoadBalancer, instance_id: &str) -> (r:
    Result<(), DockerError>)
    ensures
        final(load_balancer).contents() == old(load_balancer).contents(),
        has_count(old(load_balancer).connections(), instance_id@) ==> r is Ok && final(load_balancer).connections() == assoc_insert(
            old(load_balancer).connections(),
            instance_id@,
            if count_of(old(load_balancer).connections(), instance_id@) > 0 {
                (count_of(old(load_balancer).connections(), instance_id@) - 1) as usize
            } else {
                0usize
            },
        ),
        !has_count(old(load_balancer).connections(), instance_id@) ==> (r matches Err(e) && is_not_found(
            e,
            "instance"@,
            instance_id@,
        ) && final(load_balancer).connections() == old(load_balancer).connections()),
{
    if !has_count_in(&load_balancer.connections, instance_id) {
        return Err(DockerError::not_found("instance", instance_id));
    }
    let c = count_in(&load_balancer.connections, instance_id);
    let next = if c > 0 { c - 1 } else { 0 };
    assoc_put(&mut load_balancer.connections, instance_id.to_string(), next);
    Ok(())
}

/// Picks the healthy instance at the client's hash, cyclically, or any
/// when there is no client address.
pub open spec fn hash_pick(client_hash: Option<u64>) -> spec_fn(Seq<InstanceView>, int) -> bool {
    |h: Seq<InstanceView>, k: int| match client_hash {
        Some(x) => k == x as int % h.len() as int,
        None => true,
    }
}

/// Balances by the hash of the client's address, so that a client keeps
/// reaching the same instance; clients without an address get any.
#[derive(Debug)]
pub struct IpHashLoadBalancer {
    pool: InstancePool,
}

impl IpHashLoadBalancer {
    /// The instances of each service.
    pub closed spec fn contents(&self) -> Seq<(Seq<char>, Seq<InstanceView>)> {
        self.pool.contents()
    }

    /// A balancer with no service.
    pub fn new() -> (b: Self)
        ensures
            b.contents().len() == 0,
    {
        IpHashLoadBalancer { pool: InstancePool::new() }
    }

    /// Selects the healthy instance of the service `service_id` at the
    /// client's address hash `client_hash` modulo their number, or one at
    /// random when the client has no address.
    pub fn select_instance(&self, service_id: &str, client_hash: Option<u64>) -> (r: Result<
        ServiceInstance,
        DockerError,
    >)
        ensures
            selection_ok(self.contents(), service_id@, r, hash_pick(client_hash)),
    {
        match healthy_positions(&self.pool, service_id) {
            Ok((i, hs)) => {
                let k: usize = match client_hash {
                    Some(x) => (x % (hs.len() as u64)) as usize,
                    None => random_below(hs.len()),
                };
                let inst = copy_instance(&self.pool.services[i].1[hs[k]]);
                proof {
                    assert forall|j: int| service_at(self.contents(), service_id@, j) implies j == i by {
                        lemma_service_at_unique(self.contents(), service_id@, i as int, j);
                    }
                    assert(hash_pick(client_hash)(healthy_at(self.contents(), i as int), k as int));
                }
                Ok(inst)
            },
            Err(e) => {
                proof {
                    if has_service(self.contents(), service_id@) {
                        let j = choose|j: int|
                            service_at(self.contents(), service_id@, j) && healthy_at(self.contents(), j).len()
                                == 0 && is_no_healthy(e);
                        assert forall|j2: int| service_at(self.contents(), service_id@, j2) implies j2 == j by {
                            lemma_service_at_unique(self.contents(), service_id@, j, j2);
                        }
                    }
                }
                Err(e)
            },
        }
    }

    /// Adds an instance to its service.
    pub fn add_instance(&mut self, instance: &ServiceInstance)
        ensures
            final(self).contents() == pool_add(old(self).contents(), instance.service_id@, instance.deep_view()),
    {
        self.pool.add_instance(instance);
    }

    /// Replaces the instance with the id of `instance` in its service.
    pub fn update_instance(&mut self, instance: &ServiceInstance) -> (r: Result<(), DockerError>)
        ensures
            update_ok(old(self).contents(), instance.deep_view(), r, final(self).contents()),
    {
        self.pool.update_instance(instance)
    }

    /// Removes the instance `instance_id`.
    pub fn remove_instance(&mut self, instance_id: &str) -> (r: Result<(), DockerError>)
        ensures
            remove_ok(old(self).contents(), instance_id@, r, final(self).contents()),
    {
        self.pool.remove_instance(instance_id)
    }
}

/// Whatever a balancer selects is a healthy instance (running, with its
/// last health check passed) of the requested service.
pub proof fn law_selected_is_healthy(
    s: Seq<(Seq<char>, Seq<InstanceView>)>,
    id: Seq<char>,
    r: Result<ServiceInstance, DockerError>,
    pick: spec_fn(Seq<InstanceView>, int) -> bool,
)
    requires
        selection_ok(s, id, r, pick),
        r is Ok,
    ensures
        is_healthy(r->Ok_0.deep_view()),
        exists|i: int| service_at(s, id, i) && s[i].1.contains(r->Ok_0.deep_view()),
{
    if !has_service(s, id) {
        assert(false);
    }
    let w = choose|w: int| 0 <= w < s.len() && #[trigger] s[w].0 == id;
    let i = first_service(s, id, w);
    let h = healthy_at(s, i);
    lemma_healthy_sub(s[i].1);
    let k = choose|k: int| 0 <= k < h.len() && #[trigger] pick(h, k) && r->Ok_0.deep_view() == h[k];
    assert(is_healthy(h[k]) && s[i].1.contains(h[k]));
}

/// The first entry of a service that has an entry at `w`.
proof fn first_service(s: Seq<(Seq<char>, Seq<InstanceView>)>, id: Seq<char>, w: int) -> (i: int)
    requires
        0 <= w < s.len(),
        s[w].0 == id,
    ensures
        service_at(s, id, i),
    decreases w,
{
    if exists|j: int| 0 <= j < w && #[trigger] s[j].0 == id {
        let j = choose|j: int| 0 <= j < w && #[trigger] s[j].0 == id;
        first_service(s, id, j)
    } else {
        w
    }
}

/// Round-robin balancing takes the healthy instances in turn: after a
/// selection of position `k` among `n` healthy instances, the next one
/// (with the cursor one further) takes position `k + 1`, cyclically.
pub proof fn law_round_robin_next(cursor: usize, h: Seq<InstanceView>, k: int)
    requires
        h.len() > 0,
        cursor < usize::MAX,
        round_robin_pick(cursor)(h, k),
    ensures
        round_robin_pick(next_count(cursor))(h, (k + 1) % (h.len() as int)),
{
    let n = h.len() as int;
    vstd::arithmetic::div_mod::lemma_add_mod_noop(cursor as int, 1, n);
    if n == 1 {
        assert((k + 1) % n == 0);
        assert((cursor as int + 1) % n == 0);
    } else {
        vstd::arithmetic::div_mod::lemma_small_mod(1nat, n as nat);
    }
}

} // verus!
