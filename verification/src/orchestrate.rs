//! The decisions of the compose tool around the engine: in which rounds
//! services start (a service waits for its dependencies to be started, or
//! healthy when they have a health check), when a container is recreated,
//! which containers are orphans, and how a service is scaled. The engine
//! calls themselves are made by the caller between the steps.
use vstd::prelude::*;
use crate::compose::ComposeService;
use crate::errors::{DockerError, DockerErrorKind};
use crate::text::{
    append_chars, append_str, char_vecs, chars_of, concat_str, contains_string, decimal, decimal_chars,
    parse_u32, parse_u32_spec, split_chars, split_spec, starts_with_chars, starts_with_spec, str_eq,
    string_from_chars,
};

verus! {

broadcast use vstd::string::group_string_axioms;

/// What start-up needs of a service: its name, the services it depends
/// on, and whether it has a health check.
pub type ServiceModel = (Seq<char>, Seq<Seq<char>>, bool);

/// What start-up needs of a service.
pub open spec fn service_model(s: ComposeService) -> ServiceModel {
    (s.name@, s.depends_on.deep_view(), s.healthcheck is Some)
}

/// What start-up needs of the services.
pub open spec fn models(services: Seq<ComposeService>) -> Seq<ServiceModel> {
    services.map_values(|s: ComposeService| service_model(s))
}

/// The first service named `dep` has a health check.
pub open spec fn health_checked(m: Seq<ServiceModel>, dep: Seq<char>) -> bool
    decreases m.len(),
{
    if m.len() == 0 {
        false
    } else if m[0].0 == dep {
        m[0].2
    } else {
        health_checked(m.drop_first(), dep)
    }
}

/// The dependency `dep` is met: it is healthy when its service has a
/// health check, and started otherwise.
pub open spec fn dep_met(m: Seq<ServiceModel>, started: Seq<Seq<char>>, healthy: Seq<Seq<char>>, dep: Seq<char>) -> bool {
    if health_checked(m, dep) {
        healthy.contains(dep)
    } else {
        started.contains(dep)
    }
}

/// The dependencies of the service named `name` (the last one of that
/// name), none when there is no such service.
pub open spec fn deps_of(m: Seq<ServiceModel>, name: Seq<char>) -> Seq<Seq<char>>
    decreases m.len(),
{
    if m.len() == 0 {
        seq![]
    } else if m.last().0 == name {
        m.last().1
    } else {
        deps_of(m.drop_last(), name)
    }
}

/// Every dependency of the service `name` is met.
pub open spec fn ready(m: Seq<ServiceModel>, started: Seq<Seq<char>>, healthy: Seq<Seq<char>>, name: Seq<char>) -> bool {
    forall|j: int| 0 <= j < deps_of(m, name).len() ==> dep_met(m, started, healthy, #[trigger] deps_of(m, name)[j])
}

/// The names of `pending` whose services are ready, in order.
pub open spec fn ready_names(
    m: Seq<ServiceModel>,
    pending: Seq<Seq<char>>,
    started: Seq<Seq<char>>,
    healthy: Seq<Seq<char>>,
) -> Seq<Seq<char>>
    decreases pending.len(),
{
    if pending.len() == 0 {
        seq![]
    } else {
        let r = ready_names(m, pending.drop_last(), started, healthy);
        if ready(m, started, healthy, pending.last()) {
            r.push(pending.last())
        } else {
            r
        }
    }
}

/// Start-up only starts pending services whose dependencies are met: every
/// name a step hands out is pending and ready.
pub proof fn law_started_services_are_ready(
    m: Seq<ServiceModel>,
    pending: Seq<Seq<char>>,
    started: Seq<Seq<char>>,
    healthy: Seq<Seq<char>>,
)
    ensures
        forall|k: int|
            0 <= k < ready_names(m, pending, started, healthy).len() ==> pending.contains(
                #[trigger] ready_names(m, pending, started, healthy)[k],
            ) && ready(m, started, healthy, ready_names(m, pending, started, healthy)[k]),
    decreases pending.len(),
{
    if pending.len() > 0 {
        let rest = pending.drop_last();
        law_started_services_are_ready(m, rest, started, healthy);
        let r = ready_names(m, rest, started, healthy);
        assert forall|k: int| 0 <= k < ready_names(m, pending, started, healthy).len() implies pending.contains(
            #[trigger] ready_names(m, pending, started, healthy)[k],
        ) && ready(m, started, healthy, ready_names(m, pending, started, healthy)[k]) by {
            if k < r.len() {
                assert(ready_names(m, pending, started, healthy)[k] == r[k]);
                let j = choose|j: int| 0 <= j < rest.len() && rest[j] == r[k];
                assert(pending[j] == rest[j]);
            } else {
                assert(pending[pending.len() - 1] == pending.last());
            }
        }
    }
}

/// What start-up does next.
#[derive(Debug)]
pub enum UpAction {
    /// Start these services (in this order), then step again.
    Start(Vec<String>),
    /// Services are left but none can start: a dependency cycle, or a
    /// dependency that never comes up.
    Stuck,
    /// Every service has been started.
    Done,
}

/// Whether `s` occurs in `list`.
fn listed(list: &Vec<String>, s: &str) -> (b: bool)
    ensures
        b == list.deep_view().contains(s@),
{
    let b = contains_string(list, s);
    proof {
        if b {
            let i = choose|i: int| 0 <= i < list.len() && #[trigger] list@[i]@ == s@;
            assert(list.deep_view()[i] == s@);
        }
        if list.deep_view().contains(s@) {
            let i = choose|i: int| 0 <= i < list.deep_view().len() && list.deep_view()[i] == s@;
            assert(list@[i]@ == s@);
        }
    }
    b
}

/// Whether the first service named `dep` has a health check.
fn has_health_check(services: &Vec<ComposeService>, dep: &str) -> (b: bool)
    ensures
        b == health_checked(models(services@), dep@),
{
    let ghost m = models(services@);
    let mut i: usize = 0;
    assert(m.skip(0) =~= m);
    while i < services.len()
        invariant
            i <= services.len(),
            m == models(services@),
            health_checked(m, dep@) == health_checked(m.skip(i as int), dep@),
        decreases services.len() - i,
    {
        let ghost rest = m.skip(i as int);
        assert(rest[0] == m[i as int]);
        assert(rest.drop_first() =~= m.skip(i + 1));
        if str_eq(services[i].name.as_str(), dep) {
            return services[i].healthcheck.is_some();
        }
        i = i + 1;
    }
    assert(m.skip(i as int).len() == 0);
    false
}

/// The position of the last service named `name`.
fn last_named(services: &Vec<ComposeService>, name: &str) -> (r: Option<usize>)
    ensures
        match r {
            Some(k) => k < services.len() && deps_of(models(services@), name@) == models(services@)[k as int].1,
            None => deps_of(models(services@), name@) == Seq::<Seq<char>>::empty(),
        },
{
    let ghost m = models(services@);
    let mut i: usize = services.len();
    assert(m.take(i as int) =~= m);
    while i > 0
        invariant
            i <= services.len(),
            m == models(services@),
            deps_of(m, name@) == deps_of(m.take(i as int), name@),
        decreases i,
    {
        let ghost t = m.take(i as int);
        assert(t.last() == m[i - 1]);
        assert(t.drop_last() =~= m.take(i - 1));
        if str_eq(services[i - 1].name.as_str(), name) {
            return Some(i - 1);
        }
        i = i - 1;
    }
    None
}

/// Whether every dependency of the service `name` is met.
fn is_ready(services: &Vec<ComposeService>, started: &Vec<String>, healthy: &Vec<String>, name: &str) -> (b: bool)
    ensures
        b == ready(models(services@), started.deep_view(), healthy.deep_view(), name@),
{
    let ghost m = models(services@);
    let ghost st = started.deep_view();
    let ghost h = healthy.deep_view();
    match last_named(services, name) {
        None => true,
        Some(k) => {
            let deps = &services[k].depends_on;
            assert(deps_of(m, name@) == deps.deep_view());
            let mut j: usize = 0;
            while j < deps.len()
                invariant
                    j <= deps.len(),
                    m == models(services@),
                    st == started.deep_view(),
                    h == healthy.deep_view(),
                    deps_of(m, name@) == deps.deep_view(),
                    forall|q: int| 0 <= q < j ==> dep_met(m, st, h, #[trigger] deps_of(m, name@)[q]),
                decreases deps.len() - j,
            {
                let dep = deps[j].as_str();
                assert(deps_of(m, name@)[j as int] == dep@);
                let met = if has_health_check(services, dep) {
                    listed(healthy, dep)
                } else {
                    listed(started, dep)
                };
                if !met {
                    return false;
                }
                j = j + 1;
            }
            true
        },
    }
}

/// The next step of starting the services: the pending services whose
/// dependencies are all met (in the order of `pending`), `Stuck` when
/// services are pending and none of them can start, `Done` when none is
/// pending. A dependency is met when it is in `healthy`, for a service
/// with a health check (the first service of that name decides), and when
/// it is in `started` otherwise.
pub fn up_step(services: &Vec<ComposeService>, pending: &Vec<String>, started: &Vec<String>, healthy: &Vec<String>) -> (a:
    UpAction)
    ensures
        (a is Done) == (pending@.len() == 0),
        (a is Stuck) == (pending@.len() > 0 && ready_names(
            models(services@),
            pending.deep_view(),
            started.deep_view(),
            healthy.deep_view(),
        ).len() == 0),
        a matches UpAction::Start(v) ==> v.deep_view() == ready_names(
            models(services@),
            pending.deep_view(),
            started.deep_view(),
            healthy.deep_view(),
        ) && v@.len() > 0,
{
    let ghost m = models(services@);
    let ghost p = pending.deep_view();
    let ghost st = started.deep_view();
    let ghost h = healthy.deep_view();
    if pending.len() == 0 {
        return UpAction::Done;
    }
    let mut v: Vec<String> = Vec::new();
    let mut i: usize = 0;
    assert(p.take(0) =~= Seq::<Seq<char>>::empty());
    while i < pending.len()
        invariant
            i <= pending.len(),
            m == models(services@),
            p == pending.deep_view(),
            st == started.deep_view(),
            h == healthy.deep_view(),
            v.deep_view() == ready_names(m, p.take(i as int), st, h),
        decreases pending.len() - i,
    {
        let ghost v0 = v.deep_view();
        assert(p.take(i + 1).drop_last() =~= p.take(i as int));
        assert(p.take(i + 1).last() == pending@[i as int]@);
        if is_ready(services, started, healthy, pending[i].as_str()) {
            v.push(pending[i].clone());
            assert(v.deep_view() =~= v0.push(pending@[i as int]@));
        }
        i = i + 1;
    }
    assert(p.take(pending.len() as int) =~= p);
    if v.len() == 0 {
        UpAction::Stuck
    } else {
        UpAction::Start(v)
    }
}

/// Whether a service's container is made anew: always when forced,
/// otherwise when it does not exist and recreation is not turned off.
pub fn should_recreate(force_recreate: bool, no_recreate: bool, exists: bool) -> (b: bool)
    ensures
        b == (force_recreate || (!no_recreate && !exists)),
{
    force_recreate || (!no_recreate && !exists)
}

/// Some service is named `x`.
pub open spec fn named(m: Seq<ServiceModel>, x: Seq<char>) -> bool {
    exists|i: int| 0 <= i < m.len() && (#[trigger] m[i]).0 == x
}

/// Whether a container named `name` is an orphan: no service has its name.
pub fn is_orphan(name: &str, services: &Vec<ComposeService>) -> (b: bool)
    ensures
        b == !named(models(services@), name@),
{
    let ghost m = models(services@);
    let mut i: usize = 0;
    while i < services.len()
        invariant
            i <= services.len(),
            m == models(services@),
            forall|j: int| 0 <= j < i ==> (#[trigger] m[j]).0 != name@,
        decreases services.len() - i,
    {
        assert(m[i as int].0 == services@[i as int].name@);
        if str_eq(services[i].name.as_str(), name) {
            return false;
        }
        i = i + 1;
    }
    true
}

/// The names of `existing` that no service has, in order.
pub open spec fn orphan_names(existing: Seq<Seq<char>>, m: Seq<ServiceModel>) -> Seq<Seq<char>>
    decreases existing.len(),
{
    if existing.len() == 0 {
        seq![]
    } else {
        let r = orphan_names(existing.drop_last(), m);
        if !named(m, existing.last()) {
            r.push(existing.last())
        } else {
            r
        }
    }
}

/// The containers of `existing` (by name) that no service has: those a
/// `down` with orphan removal also removes.
pub fn orphans(existing: &Vec<String>, services: &Vec<ComposeService>) -> (r: Vec<String>)
    ensures
        r.deep_view() == orphan_names(existing.deep_view(), models(services@)),
{
    let ghost e = existing.deep_view();
    let mut r: Vec<String> = Vec::new();
    let mut i: usize = 0;
    assert(e.take(0) =~= Seq::<Seq<char>>::empty());
    while i < existing.len()
        invariant
            i <= existing.len(),
            e == existing.deep_view(),
            r.deep_view() == orphan_names(e.take(i as int), models(services@)),
        decreases existing.len() - i,
    {
        let ghost r0 = r.deep_view();
        assert(e.take(i + 1).drop_last() =~= e.take(i as int));
        assert(e.take(i + 1).last() == existing@[i as int]@);
        if is_orphan(existing[i].as_str(), services) {
            r.push(existing[i].clone());
            assert(r.deep_view() =~= r0.push(existing@[i as int]@));
        }
        i = i + 1;
    }
    assert(e.take(existing.len() as int) =~= e);
    r
}

/// The names of `existing` that begin with `service`, in order: the
/// containers counted as the service's when scaling.
pub open spec fn member_names(existing: Seq<Seq<char>>, service: Seq<char>) -> Seq<Seq<char>>
    decreases existing.len(),
{
    if existing.len() == 0 {
        seq![]
    } else {
        let r = member_names(existing.drop_last(), service);
        if starts_with_spec(existing.last(), service) {
            r.push(existing.last())
        } else {
            r
        }
    }
}

/// The containers of `existing` (by name) counted as the service's: those
/// whose name begins with the service's name.
pub fn scale_members(existing: &Vec<String>, service: &str) -> (r: Vec<String>)
    ensures
        r.deep_view() == member_names(existing.deep_view(), service@),
{
    let ghost e = existing.deep_view();
    let p = chars_of(service);
    let mut r: Vec<String> = Vec::new();
    let mut i: usize = 0;
    assert(e.take(0) =~= Seq::<Seq<char>>::empty());
    while i < existing.len()
        invariant
            i <= existing.len(),
            e == existing.deep_view(),
            p@ == service@,
            r.deep_view() == member_names(e.take(i as int), service@),
        decreases existing.len() - i,
    {
        let ghost r0 = r.deep_view();
        assert(e.take(i + 1).drop_last() =~= e.take(i as int));
        assert(e.take(i + 1).last() == existing@[i as int]@);
        let cs = chars_of(existing[i].as_str());
        if starts_with_chars(&cs, &p) {
            r.push(existing[i].clone());
            assert(r.deep_view() =~= r0.push(existing@[i as int]@));
        }
        i = i + 1;
    }
    assert(e.take(existing.len() as int) =~= e);
    r
}

/// A service never has more members than there are containers.
pub proof fn lemma_members_bounded(existing: Seq<Seq<char>>, service: Seq<char>)
    ensures
        member_names(existing, service).len() <= existing.len(),
    decreases existing.len(),
{
    if existing.len() > 0 {
        lemma_members_bounded(existing.drop_last(), service);
    }
}

/// How a service is scaled.
#[derive(Debug)]
pub enum ScaleAction {
    /// Create these containers to reach `scale`.
    Create { scale: u32, names: Vec<String> },
    /// Remove these containers of the service to reach `scale`.
    Remove { scale: u32, containers: Vec<String> },
    /// The service already has `scale` containers.
    Keep { scale: u32 },
}

/// The number of containers that a scale text asks for: the number it
/// writes, or 1 when it is not a 32-bit number.
pub open spec fn scale_of(text: Seq<char>) -> u32 {
    match parse_u32_spec(text) {
        Some(n) => n,
        None => 1,
    }
}

/// The name of the `k`-th container of `service`: `service-k`.
pub open spec fn member_name(service: Seq<char>, k: nat) -> Seq<char> {
    service + "-"@ + decimal(k)
}

/// The error for a scale text that is not `SERVICE=COUNT`.
pub open spec fn is_bad_scale(e: DockerError, spec: Seq<char>) -> bool {
    *e.kind matches DockerErrorKind::InvalidParams { param, reason } && param@ == "scale"@ && reason@
        == "Invalid scale specification: "@ + spec
}

/// The plan for a scale text `SERVICE=COUNT` when the containers named
/// `existing` run: the service's containers are those whose name begins
/// with `SERVICE`; to reach `COUNT` (1 when it is not a number), create the
/// containers numbered after the current ones, remove the first ones of the
/// surplus, or keep them. Fails when the text does not hold exactly one
/// `=`.
pub fn scale_plan(spec: &str, existing: &Vec<String>) -> (r: Result<(String, ScaleAction), DockerError>)
    requires
        existing@.len() <= u32::MAX,
    ensures
        split_spec(spec@, '=').len() != 2 ==> (r matches Err(e) && is_bad_scale(e, spec@)),
        split_spec(spec@, '=').len() == 2 ==> (r matches Ok((name, action)) && {
            let parts = split_spec(spec@, '=');
            let n = scale_of(parts[1]);
            let members = member_names(existing.deep_view(), parts[0]);
            let current = members.len();
            &&& name@ == parts[0]
            &&& n > current ==> (action matches ScaleAction::Create { scale, names } && scale == n
                && names@.len() == n - current && forall|k: int|
                0 <= k < names@.len() ==> #[trigger] names@[k]@ == member_name(parts[0], (current + k + 1) as nat))
            &&& n < current ==> (action matches ScaleAction::Remove { scale, containers } && scale == n
                && containers.deep_view() == members.take(current - n))
            &&& n == current ==> (action matches ScaleAction::Keep { scale } && scale == n)
        }),
{
    let cs = chars_of(spec);
    let parts = split_chars(&cs, '=');
    if parts.len() != 2 {
        let m = concat_str("Invalid scale specification: ", spec);
        return Err(DockerError::invalid_params("scale", m.as_str()));
    }
    assert(char_vecs(parts@)[0] == parts@[0]@);
    assert(char_vecs(parts@)[1] == parts@[1]@);
    let name = string_from_chars(&parts[0]);
    let count_text = string_from_chars(&parts[1]);
    let n: u32 = match parse_u32(count_text.as_str()) {
        Some(x) => x,
        None => 1,
    };
    let members = scale_members(existing, name.as_str());
    proof {
        lemma_members_bounded(existing.deep_view(), name@);
    }
    let current = members.len() as u32;
    if n > current {
        let mut names: Vec<String> = Vec::new();
        let mut k: u32 = 0;
        while k < n - current
            invariant
                current < n,
                k <= n - current,
                names@.len() == k,
                forall|q: int| 0 <= q < k ==> #[trigger] names@[q]@ == member_name(name@, (current + q + 1) as nat),
            decreases n - current - k,
        {
            let mut v = chars_of(name.as_str());
            append_str(&mut v, "-");
            let d = decimal_chars((current + k + 1) as u64);
            append_chars(&mut v, &d);
            let ghost names0 = names@;
            names.push(string_from_chars(&v));
            proof {
                reveal_strlit("-");
                assert(names@[k as int]@ == member_name(name@, (current + k + 1) as nat));
                assert forall|q: int| 0 <= q < k + 1 implies #[trigger] names@[q]@ == member_name(
                    name@,
                    (current + q + 1) as nat,
                ) by {
                    if q < k {
                        assert(names@[q] == names0[q]);
                    }
                }
            }
            k = k + 1;
        }
        Ok((name, ScaleAction::Create { scale: n, names }))
    } else if n < current {
        let count = (current - n) as usize;
        let mut out: Vec<String> = Vec::new();
        let mut i: usize = 0;
        while i < count
            invariant
                i <= count,
                count <= members.len(),
                out.deep_view() == members.deep_view().take(i as int),
            decreases count - i,
        {
            let ghost o0 = out.deep_view();
            out.push(members[i].clone());
            assert(out.deep_view() =~= o0.push(members.deep_view()[i as int]));
            assert(members.deep_view().take(i + 1) =~= members.deep_view().take(i as int).push(
                members.deep_view()[i as int],
            ));
            i = i + 1;
        }
        Ok((name, ScaleAction::Remove { scale: n, containers: out }))
    } else {
        Ok((name, ScaleAction::Keep { scale: n }))
    }
}

} // verus!
