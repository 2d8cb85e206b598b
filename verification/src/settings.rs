//! The daemon's settings store (configuration objects, secrets and
//! endpoints, kept as files) and its in-memory container runtime.
use vstd::prelude::*;
use crate::errors::{DockerError, DockerErrorKind};
use crate::image::{hex_lower, is_uuid_v4, new_uuid, sha256, sha256_digest, to_hex};
use crate::text::{append_str, chars_of, concat_str, decimal, decimal_chars, str_eq, string_from_chars};
use crate::types::{
    ConfigInfo, ContainerStatus, EndpointConfig, EndpointInfo, EndpointStatus, EndpointType,
    SecretInfo, Timestamp,
};

verus! {

broadcast use vstd::string::group_string_axioms;

/// The UTF-8 bytes of a text.
pub open spec fn utf8(s: Seq<char>) -> Seq<u8> {
    vstd::utf8::encode_utf8(s)
}

/// The id of stored content: the lowercase hexadecimal SHA-256 hash of the
/// content followed by the time in seconds, in decimal.
pub open spec fn generated_id(data: Seq<char>, secs: u64) -> Seq<char> {
    hex_lower(sha256(utf8(data + decimal(secs as nat))))
}

/// The directory the daemon keeps its data in.
pub open spec fn default_data_dir() -> Seq<char> {
    "/var/lib/rusty-docker"@
}

/// The daemon's configuration file.
pub open spec fn default_config_file() -> Seq<char> {
    "/etc/rusty-docker/config.toml"@
}

/// The name of an endpoint type in ids.
pub open spec fn endpoint_type_name(t: EndpointType) -> Seq<char> {
    match t {
        EndpointType::Local => "local"@,
        EndpointType::Remote => "remote"@,
        EndpointType::Cloud => "cloud"@,
    }
}

/// Keeps configuration objects, secrets and endpoints, each as a file
/// named after its id in a directory of its own under the data directory.
#[derive(Debug)]
pub struct ConfigManager {
    config_path: String,
    configs_dir: String,
    secrets_dir: String,
    endpoints_dir: String,
}

/// The error for an object of `kind` that is not stored.
pub open spec fn is_missing(e: DockerError, kind: Seq<char>, label: Seq<char>, id: Seq<char>) -> bool {
    *e.kind matches DockerErrorKind::ResourceNotFound { resource_type, identifier }
        && resource_type@ == kind && identifier@ == label + " "@ + id + " not found"@
}

impl ConfigManager {
    /// The daemon's configuration file.
    pub closed spec fn config_file(&self) -> Seq<char> {
        self.config_path@
    }

    /// The directories of configuration objects, secrets and endpoints.
    pub closed spec fn dirs(&self) -> (Seq<char>, Seq<char>, Seq<char>) {
        (self.configs_dir@, self.secrets_dir@, self.endpoints_dir@)
    }

    /// The directory the daemon keeps its data in.
    pub fn get_default_data_dir() -> (r: String)
        ensures
            r@ == default_data_dir(),
    {
        "/var/lib/rusty-docker".to_string()
    }

    /// The daemon's configuration file (made with the defaults by the
    /// caller when it does not exist).
    pub fn get_config_path() -> (r: String)
        ensures
            r@ == default_config_file(),
    {
        "/etc/rusty-docker/config.toml".to_string()
    }

    /// A manager on the default configuration file, with its directories
    /// `configs`, `secrets` and `endpoints` under the default data
    /// directory (made by the caller).
    pub fn new() -> (m: Self)
        ensures
            m.config_file() == default_config_file(),
            m.dirs() == (
                default_data_dir() + "/configs"@,
                default_data_dir() + "/secrets"@,
                default_data_dir() + "/endpoints"@,
            ),
    {
        let data = Self::get_default_data_dir();
        ConfigManager {
            config_path: Self::get_config_path(),
            configs_dir: concat_str(data.as_str(), "/configs"),
            secrets_dir: concat_str(data.as_str(), "/secrets"),
            endpoints_dir: concat_str(data.as_str(), "/endpoints"),
        }
    }

    /// The daemon's configuration file of this manager.
    pub fn config_path(&self) -> (r: &String)
        ensures
            r@ == self.config_file(),
    {
        &self.config_path
    }

    /// The directories of configuration objects, secrets and endpoints.
    pub fn directories(&self) -> (r: (&String, &String, &String))
        ensures
            (r.0@, r.1@, r.2@) == self.dirs(),
    {
        (&self.configs_dir, &self.secrets_dir, &self.endpoints_dir)
    }

    /// The id of content stored at the time `secs` (seconds since the
    /// epoch).
    pub fn generate_id(data: &str, secs: u64) -> (r: String)
        ensures
            r@ == generated_id(data@, secs),
    {
        let d = decimal_chars(secs);
        let mut v = chars_of(data);
        crate::text::append_chars(&mut v, &d);
        let s = string_from_chars(&v);
        let hash = sha256_digest(s.as_str().as_bytes());
        let hex = to_hex(&hash);
        string_from_chars(&hex)
    }

    /// The file of the object `id` in the directory `dir`.
    fn file_in(dir: &String, id: &str) -> (r: String)
        ensures
            r@ == dir@ + "/"@ + id@ + ".toml"@,
    {
        let mut v = chars_of(dir.as_str());
        append_str(&mut v, "/");
        append_str(&mut v, id);
        append_str(&mut v, ".toml");
        string_from_chars(&v)
    }

    /// The file of the configuration object `id`.
    pub fn config_file_of(&self, id: &str) -> (r: String)
        ensures
            r@ == self.dirs().0 + "/"@ + id@ + ".toml"@,
    {
        Self::file_in(&self.configs_dir, id)
    }

    /// The file of the secret `id`.
    pub fn secret_file_of(&self, id: &str) -> (r: String)
        ensures
            r@ == self.dirs().1 + "/"@ + id@ + ".toml"@,
    {
        Self::file_in(&self.secrets_dir, id)
    }

    /// The file of the data of the secret `id`.
    pub fn secret_data_file_of(&self, id: &str) -> (r: String)
        ensures
            r@ == self.dirs().1 + "/"@ + id@ + ".data"@,
    {
        let mut v = chars_of(self.secrets_dir.as_str());
        append_str(&mut v, "/");
        append_str(&mut v, id);
        append_str(&mut v, ".data");
        string_from_chars(&v)
    }

    /// The file of the endpoint `id`.
    pub fn endpoint_file_of(&self, id: &str) -> (r: String)
        ensures
            r@ == self.dirs().2 + "/"@ + id@ + ".toml"@,
    {
        Self::file_in(&self.endpoints_dir, id)
    }

    /// The error for an object of `kind` (`config`, `secret`, `endpoint`)
    /// whose file does not exist.
    pub fn missing(kind: &str, label: &str, id: &str) -> (e: DockerError)
        ensures
            is_missing(e, kind@, label@, id@),
    {
        let mut v = chars_of(label);
        append_str(&mut v, " ");
        append_str(&mut v, id);
        append_str(&mut v, " not found");
        let m = string_from_chars(&v);
        DockerError::not_found(kind, m.as_str())
    }

    /// A new configuration object `name` holding `data`, made at `now`,
    /// identified by its name and data.
    pub fn create_config(&self, name: &str, data: &str, labels: Vec<(String, String)>, now: Timestamp) -> (r:
        ConfigInfo)
        ensures
            r.id@ == generated_id(name@ + data@, now.secs),
            r.name@ == name@,
            r.data@ == data@,
            r.created_at == now,
            r.labels == labels,
    {
        let nd = concat_str(name, data);
        ConfigInfo {
            id: Self::generate_id(nd.as_str(), now.secs),
            name: name.to_string(),
            data: data.to_string(),
            created_at: now,
            labels,
        }
    }

    /// A configuration object with new data and labels.
    pub fn update_config(&self, config: &mut ConfigInfo, data: &str, labels: Vec<(String, String)>)
        ensures
            final(config).id == old(config).id,
            final(config).name == old(config).name,
            final(config).created_at == old(config).created_at,
            final(config).data@ == data@,
            final(config).labels == labels,
    {
        config.data = data.to_string();
        config.labels = labels;
    }

    /// A new secret `name` holding `data`, made at `now`: identified by
    /// its name and data, with the digest of its data.
    pub fn create_secret(&self, name: &str, data: &str, labels: Vec<(String, String)>, now: Timestamp) -> (r:
        SecretInfo)
        ensures
            r.id@ == generated_id(name@ + data@, now.secs),
            r.name@ == name@,
            r.created_at == now,
            r.labels == labels,
            r.digest@ == generated_id(data@, now.secs),
    {
        let nd = concat_str(name, data);
        SecretInfo {
            id: Self::generate_id(nd.as_str(), now.secs),
            name: name.to_string(),
            created_at: now,
            labels,
            digest: Self::generate_id(data, now.secs),
        }
    }

    /// A new endpoint, made at `now` and not connected yet, identified by
    /// its name, URL and type.
    pub fn create_endpoint(
        &self,
        name: &str,
        endpoint_type: EndpointType,
        url: &str,
        use_tls: bool,
        tls_cert_path: Option<String>,
        tls_key_path: Option<String>,
        tls_ca_path: Option<String>,
        auth_token: Option<String>,
        labels: Vec<(String, String)>,
        now: Timestamp,
    ) -> (r: EndpointInfo)
        ensures
            r.config.id@ == generated_id(name@ + url@ + endpoint_type_name(endpoint_type), now.secs),
            r.config.name@ == name@,
            r.config.endpoint_type == endpoint_type,
            r.config.url@ == url@,
            r.config.use_tls == use_tls,
            r.config.tls_cert_path == tls_cert_path,
            r.config.tls_key_path == tls_key_path,
            r.config.tls_ca_path == tls_ca_path,
            r.config.auth_token == auth_token,
            r.config.labels == labels,
            r.status is Disconnected,
            r.created_at == now,
            r.last_connected_at is None,
            r.connection_info is None,
    {
        let kind_name = match endpoint_type {
            EndpointType::Local => "local",
            EndpointType::Remote => "remote",
            EndpointType::Cloud => "cloud",
        };
        let mut v = chars_of(name);
        append_str(&mut v, url);
        append_str(&mut v, kind_name);
        let key = string_from_chars(&v);
        let config = EndpointConfig {
            id: Self::generate_id(key.as_str(), now.secs),
            name: name.to_string(),
            endpoint_type,
            url: url.to_string(),
            use_tls,
            tls_cert_path,
            tls_key_path,
            tls_ca_path,
            auth_token,
            labels,
        };
        EndpointInfo {
            config,
            status: EndpointStatus::Disconnected,
            created_at: now,
            last_connected_at: None,
            connection_info: None,
        }
    }

    /// An endpoint with new settings (its id, type, state and times stay).
    pub fn update_endpoint(
        &self,
        endpoint: &mut EndpointInfo,
        name: &str,
        url: &str,
        use_tls: bool,
        tls_cert_path: Option<String>,
        tls_key_path: Option<String>,
        tls_ca_path: Option<String>,
        auth_token: Option<String>,
        labels: Vec<(String, String)>,
    )
        ensures
            final(endpoint).config.id == old(endpoint).config.id,
            final(endpoint).config.endpoint_type == old(endpoint).config.endpoint_type,
            final(endpoint).config.name@ == name@,
            final(endpoint).config.url@ == url@,
            final(endpoint).config.use_tls == use_tls,
            final(endpoint).config.tls_cert_path == tls_cert_path,
            final(endpoint).config.tls_key_path == tls_key_path,
            final(endpoint).config.tls_ca_path == tls_ca_path,
            final(endpoint).config.auth_token == auth_token,
            final(endpoint).config.labels == labels,
            final(endpoint).status == old(endpoint).status,
            final(endpoint).created_at == old(endpoint).created_at,
            final(endpoint).last_connected_at == old(endpoint).last_connected_at,
            final(endpoint).connection_info == old(endpoint).connection_info,
    {
        endpoint.config.name = name.to_string();
        endpoint.config.url = url.to_string();
        endpoint.config.use_tls = use_tls;
        endpoint.config.tls_cert_path = tls_cert_path;
        endpoint.config.tls_key_path = tls_key_path;
        endpoint.config.tls_ca_path = tls_ca_path;
        endpoint.config.auth_token = auth_token;
        endpoint.config.labels = labels;
    }

    /// Tests the connection to the endpoint `endpoint_id`: always reported
    /// as connected.
    pub fn test_endpoint_connection(&self, endpoint_id: &str) -> (r: Result<EndpointStatus, DockerError>)
        ensures
            r matches Ok(s) && s is Connected,
    {
        Ok(EndpointStatus::Connected)
    }
}

// ---------------------------------------------------------------------------
// The in-memory container runtime.

/// A container the runtime keeps.
#[derive(Debug, Clone)]
pub struct RuntimeContainer {
    pub id: String,
    pub name: String,
    pub image: String,
    pub status: ContainerStatus,
    pub created_at: Timestamp,
    pub started_at: Option<Timestamp>,
    pub stopped_at: Option<Timestamp>,
    pub pid: Option<u32>,
    pub network_name: String,
}

/// The state of a container, without its error message.
#[derive(Debug, Clone, Copy, PartialEq, Eq, Structural)]
pub enum Phase {
    Creating,
    Running,
    Stopped,
    Paused,
    Failed,
}

/// The phase of a state.
pub open spec fn phase_of(s: ContainerStatus) -> Phase {
    match s {
        ContainerStatus::Creating => Phase::Creating,
        ContainerStatus::Running => Phase::Running,
        ContainerStatus::Stopped => Phase::Stopped,
        ContainerStatus::Paused => Phase::Paused,
        ContainerStatus::Error(_) => Phase::Failed,
    }
}

/// The view of a kept container.
pub type RuntimeView = (
    Seq<char>,
    Seq<char>,
    Seq<char>,
    Phase,
    Timestamp,
    Option<Timestamp>,
    Option<Timestamp>,
    Option<u32>,
    Seq<char>,
);

/// The view of a kept container.
pub open spec fn runtime_view(c: RuntimeContainer) -> RuntimeView {
    (
        c.id@,
        c.name@,
        c.image@,
        phase_of(c.status),
        c.created_at,
        c.started_at,
        c.stopped_at,
        c.pid,
        c.network_name@,
    )
}

/// The phase of a state.
fn phase(s: &ContainerStatus) -> (p: Phase)
    ensures
        p == phase_of(*s),
{
    match s {
        ContainerStatus::Creating => Phase::Creating,
        ContainerStatus::Running => Phase::Running,
        ContainerStatus::Stopped => Phase::Stopped,
        ContainerStatus::Paused => Phase::Paused,
        ContainerStatus::Error(_) => Phase::Failed,
    }
}

/// A copy of a kept container.
fn copy_runtime_container(c: &RuntimeContainer) -> (r: RuntimeContainer)
    ensures
        runtime_view(r) == runtime_view(*c),
{
    RuntimeContainer {
        id: c.id.clone(),
        name: c.name.clone(),
        image: c.image.clone(),
        status: match &c.status {
            ContainerStatus::Creating => ContainerStatus::Creating,
            ContainerStatus::Running => ContainerStatus::Running,
            ContainerStatus::Stopped => ContainerStatus::Stopped,
            ContainerStatus::Paused => ContainerStatus::Paused,
            ContainerStatus::Error(m) => ContainerStatus::Error(m.clone()),
        },
        created_at: c.created_at,
        started_at: c.started_at,
        stopped_at: c.stopped_at,
        pid: c.pid,
        network_name: c.network_name.clone(),
    }
}

/// `i` is the position of the first container of `s` with the id `id`.
pub open spec fn container_at(s: Seq<RuntimeView>, id: Seq<char>, i: int) -> bool {
    &&& 0 <= i < s.len()
    &&& s[i].0 == id
    &&& forall|j: int| 0 <= j < i ==> #[trigger] s[j].0 != id
}

/// Some container of `s` has the id `id`.
pub open spec fn has_container(s: Seq<RuntimeView>, id: Seq<char>) -> bool {
    exists|i: int| 0 <= i < s.len() && #[trigger] s[i].0 == id
}

/// The error for a container the runtime does not keep.
pub open spec fn is_unknown(e: DockerError, id: Seq<char>) -> bool {
    is_missing(e, "container"@, "Container"@, id)
}

/// The error of a refused state change.
pub open spec fn is_refused(e: DockerError, reason: Seq<char>) -> bool {
    *e.kind matches DockerErrorKind::ContainerError { reason: r } && r@ == reason
}

/// The running containers among `s`, in order.
pub open spec fn running_only(s: Seq<RuntimeView>) -> Seq<RuntimeView>
    decreases s.len(),
{
    if s.len() == 0 {
        seq![]
    } else if s.last().3 == Phase::Running {
        running_only(s.drop_last()).push(s.last())
    } else {
        running_only(s.drop_last())
    }
}

/// The process id a started container gets.
pub open spec fn started_pid() -> u32 {
    12345
}

/// A container in the phase `p` may start: it is being created or stopped.
pub open spec fn can_start(p: Phase) -> bool {
    p == Phase::Creating || p == Phase::Stopped
}

/// The container `c` started at `now`: running, with its process.
pub open spec fn started(c: RuntimeView, now: Timestamp) -> RuntimeView {
    (c.0, c.1, c.2, Phase::Running, c.4, Some(now), c.6, Some(started_pid()), c.8)
}

/// The container `c` stopped at `now`: without a process.
pub open spec fn stopped(c: RuntimeView, now: Timestamp) -> RuntimeView {
    (c.0, c.1, c.2, Phase::Stopped, c.4, c.5, Some(now), None::<u32>, c.8)
}

/// The text of an optional string.
pub open spec fn str_opt_view(o: Option<&str>) -> Option<Seq<char>> {
    match o {
        Some(n) => Some(n@),
        None => None,
    }
}

/// The text of `u` before its first `-` (all of it when there is none).
pub open spec fn first_group(u: Seq<char>) -> Seq<char> {
    if crate::text::has_char(u, '-') {
        u.take(crate::text::first_index(u, '-'))
    } else {
        u
    }
}

/// `r` and `t` are the outcome and the containers after running a
/// container `v` of `image` named `name` (a default name when none) on the
/// network `network` at `now`, when the runtime held `s`: `v` is created
/// under a new random id and then started; when the id was not in use, the
/// new container ends up running.
pub open spec fn run_ok(
    s: Seq<RuntimeView>,
    v: RuntimeView,
    image: Seq<char>,
    name: Option<Seq<char>>,
    network: Seq<char>,
    now: Timestamp,
    r: Result<RuntimeContainer, DockerError>,
    t: Seq<RuntimeView>,
) -> bool {
    let mid = s.push(v);
    &&& is_uuid_v4(v.0)
    &&& v.2 == image && v.3 == Phase::Creating && v.4 == now && v.5 is None && v.6 is None && v.7 is None
        && v.8 == network
    &&& match name {
        Some(n) => v.1 == n,
        None => exists|u: Seq<char>| is_uuid_v4(u) && v.1 == "container-"@ + first_group(u),
    }
    &&& r matches Ok(c) ==> runtime_view(c) == v
    &&& forall|i: int|
        #[trigger] container_at(mid, v.0, i) ==> {
            &&& can_start(mid[i].3) ==> r is Ok && t == mid.update(i, started(mid[i], now))
            &&& !can_start(mid[i].3) ==> (r matches Err(e) && is_refused(
                e,
                "Container is not in a state to start"@,
            ) && t == mid)
        }
    &&& !has_container(s, v.0) ==> r is Ok && t == s.push(started(v, now))
}

/// Keeps containers in memory and moves them through their lifecycle:
/// created, running, stopped, running again, removed.
#[derive(Debug)]
pub struct ContainerRuntime {
    default_network: String,
    containers: Vec<RuntimeContainer>,
}

impl ContainerRuntime {
    /// The containers, in the order they were created.
    pub closed spec fn contents(&self) -> Seq<RuntimeView> {
        self.containers@.map_values(|c: RuntimeContainer| runtime_view(c))
    }

    /// The network new containers join.
    pub closed spec fn network(&self) -> Seq<char> {
        self.default_network@
    }

    /// A runtime with no container, joining containers to the `default`
    /// network.
    pub fn new() -> (r: Result<Self, DockerError>)
        ensures
            r matches Ok(rt) && rt.contents().len() == 0 && rt.network() == "default"@,
    {
        Ok(ContainerRuntime { default_network: "default".to_string(), containers: Vec::new() })
    }

    /// The position of the container `id`.
    fn find(&self, id: &str) -> (r: Option<usize>)
        ensures
            match r {
                Some(i) => container_at(self.contents(), id@, i as int),
                None => !has_container(self.contents(), id@),
            },
    {
        let mut i: usize = 0;
        while i < self.containers.len()
            invariant
                i <= self.containers.len(),
                forall|j: int| 0 <= j < i ==> #[trigger] self.contents()[j].0 != id@,
            decreases self.containers.len() - i,
        {
            assert(self.contents()[i as int].0 == self.containers@[i as int].id@);
            if str_eq(self.containers[i].id.as_str(), id) {
                return Some(i);
            }
            i = i + 1;
        }
        None
    }

    /// Creates the container `name` of `image` at `now` under a new random
    /// id (a version-4 UUID): it is being created, on the runtime's network,
    /// and comes last.
    pub fn create_container(&mut self, name: &str, image: &str, now: Timestamp) -> (r: RuntimeContainer)
        ensures
            is_uuid_v4(r.id@),
            runtime_view(r) == (r.id@, name@, image@, Phase::Creating, now, None::<Timestamp>, None::<
                Timestamp,
            >, None::<u32>, old(self).network()),
            final(self).contents() == old(self).contents().push(runtime_view(r)),
            final(self).network() == old(self).network(),
    {
        let c = RuntimeContainer {
            id: new_uuid(),
            name: name.to_string(),
            image: image.to_string(),
            status: ContainerStatus::Creating,
            created_at: now,
            started_at: None,
            stopped_at: None,
            pid: None,
            network_name: self.default_network.clone(),
        };
        let r = copy_runtime_container(&c);
        let ghost before = self.contents();
        self.containers.push(c);
        assert(self.contents() =~= before.push(runtime_view(r)));
        r
    }

    /// The name a container run without one gets: `container-` and the
    /// first group of a new random id.
    pub fn default_container_name() -> (r: String)
        ensures
            exists|u: Seq<char>| is_uuid_v4(u) && r@ == "container-"@ + first_group(u),
    {
        let u = new_uuid();
        let cs = chars_of(u.as_str());
        let group = match crate::text::find_char(&cs, '-') {
            Some(i) => crate::text::slice_chars(&cs, 0, i),
            None => crate::text::slice_chars(&cs, 0, cs.len()),
        };
        assert(group@ == first_group(u@));
        let mut v = chars_of("container-");
        crate::text::append_chars(&mut v, &group);
        string_from_chars(&v)
    }

    /// Creates and starts a container of `image` named `name` (or a
    /// default name) at `now`; gives the container as created.
    pub fn run_container(&mut self, image: &str, name: Option<&str>, now: Timestamp) -> (r: Result<
        RuntimeContainer,
        DockerError,
    >)
        ensures
            final(self).network() == old(self).network(),
            exists|v: RuntimeView|
                #[trigger] run_ok(
                    old(self).contents(),
                    v,
                    image@,
                    str_opt_view(name),
                    old(self).network(),
                    now,
                    r,
                    final(self).contents(),
                ),
    {
        let n = match name {
            Some(n) => n.to_string(),
            None => Self::default_container_name(),
        };
        let ghost before = self.contents();
        let c = self.create_container(n.as_str(), image, now);
        let ghost v = runtime_view(c);
        let ghost mid = self.contents();
        let res = self.start_container(c.id.as_str(), now);
        proof {
            assert(mid == before.push(v));
            if !has_container(before, v.0) {
                let k = before.len() as int;
                assert(container_at(mid, v.0, k)) by {
                    assert forall|j: int| 0 <= j < k implies #[trigger] mid[j].0 != v.0 by {
                        assert(mid[j] == before[j]);
                        if mid[j].0 == v.0 {
                            assert(before[j].0 == v.0);
                        }
                    }
                }
                assert(mid[k] == v);
                assert(mid.update(k, started(v, now)) =~= before.push(started(v, now)));
            }
        }
        let r = match res {
            Ok(()) => Ok(c),
            Err(e) => Err(e),
        };
        assert(is_uuid_v4(v.0));
        assert(r matches Ok(x) ==> runtime_view(x) == v);
        assert(match str_opt_view(name) {
            Some(nm) => v.1 == nm,
            None => exists|u: Seq<char>| is_uuid_v4(u) && v.1 == "container-"@ + first_group(u),
        });
        assert(forall|i: int|
            #[trigger] container_at(mid, v.0, i) ==> {
                &&& can_start(mid[i].3) ==> r is Ok && self.contents() == mid.update(i, started(mid[i], now))
                &&& !can_start(mid[i].3) ==> (r matches Err(e) && is_refused(
                    e,
                    "Container is not in a state to start"@,
                ) && self.contents() == mid)
            });
        assert(!has_container(before, v.0) ==> r is Ok && self.contents() == before.push(started(v, now)));
        assert(run_ok(before, v, image@, str_opt_view(name), mid[mid.len() - 1].8, now, r, self.contents()));
        r
    }

    /// Starts the container `id` at `now`: only a container being created
    /// or stopped starts; it runs from `now` with its process.
    pub fn start_container(&mut self, id: &str, now: Timestamp) -> (r: Result<(), DockerError>)
        ensures
            final(self).network() == old(self).network(),
            !has_container(old(self).contents(), id@) ==> (r matches Err(e) && is_unknown(e, id@)
                && final(self).contents() == old(self).contents()),
            forall|i: int|
                container_at(old(self).contents(), id@, i) ==> {
                    let c = old(self).contents()[i];
                    &&& can_start(c.3) ==> r is Ok && final(self).contents() == old(self).contents().update(
                        i,
                        started(c, now),
                    )
                    &&& !can_start(c.3) ==> (r matches Err(e)
                        && is_refused(e, "Container is not in a state to start"@) && final(self).contents()
                        == old(self).contents())
                },
    {
        let ghost before = self.contents();
        match self.find(id) {
            Some(i) => {
                proof {
                    assert forall|j: int| container_at(before, id@, j) implies j == i by {
                        if j < i {
                            assert(before[j].0 != id@);
                        }
                        if i < j {
                            assert(before[i as int].0 == id@);
                        }
                    }
                }
                let p = phase(&self.containers[i].status);
                if p != Phase::Creating && p != Phase::Stopped {
                    return Err(DockerError::container_error("Container is not in a state to start"));
                }
                let mut c = self.containers.remove(i);
                c.status = ContainerStatus::Running;
                c.started_at = Some(now);
                c.pid = Some(12345);
                self.containers.insert(i, c);
                assert(self.contents() =~= before.update(
                    i as int,
                    (before[i as int].0, before[i as int].1, before[i as int].2, Phase::Running,
                    before[i as int].4, Some(now), before[i as int].6, Some(started_pid()),
                    before[i as int].8),
                ));
                Ok(())
            },
            None => Err(Self::unknown(id)),
        }
    }

    /// The error for a container the runtime does not keep.
    fn unknown(id: &str) -> (e: DockerError)
        ensures
            is_unknown(e, id@),
    {
        ConfigManager::missing("container", "Container", id)
    }

    /// Stops the container `id` at `now`: only a running container stops;
    /// it is stopped from `now` and has no process any more.
    pub fn stop_container(&mut self, id: &str, now: Timestamp) -> (r: Result<(), DockerError>)
        ensures
            final(self).network() == old(self).network(),
            !has_container(old(self).contents(), id@) ==> (r matches Err(e) && is_unknown(e, id@)
                && final(self).contents() == old(self).contents()),
            forall|i: int|
                container_at(old(self).contents(), id@, i) ==> {
                    let c = old(self).contents()[i];
                    &&& c.3 == Phase::Running ==> r is Ok && final(self).contents() == old(self).contents().update(
                        i,
                        stopped(c, now),
                    )
                    &&& c.3 != Phase::Running ==> (r matches Err(e) && is_refused(
                        e,
                        "Container is not in a running state"@,
                    ) && final(self).contents() == old(self).contents())
                },
    {
        let ghost before = self.contents();
        match self.find(id) {
            Some(i) => {
                proof {
                    assert forall|j: int| container_at(before, id@, j) implies j == i by {
                        if j < i {
                            assert(before[j].0 != id@);
                        }
                        if i < j {
                            assert(before[i as int].0 == id@);
                        }
                    }
                }
                let p = phase(&self.containers[i].status);
                if p != Phase::Running {
                    return Err(DockerError::container_error("Container is not in a running state"));
                }
                let mut c = self.containers.remove(i);
                c.status = ContainerStatus::Stopped;
                c.stopped_at = Some(now);
                c.pid = None;
                self.containers.insert(i, c);
                assert(self.contents() =~= before.update(
                    i as int,
                    (before[i as int].0, before[i as int].1, before[i as int].2, Phase::Stopped,
                    before[i as int].4, before[i as int].5, Some(now), None::<u32>, before[i as int].8),
                ));
                Ok(())
            },
            None => Err(Self::unknown(id)),
        }
    }

    /// Removes the container `id`; a running container cannot be removed.
    pub fn remove_container(&mut self, id: &str) -> (r: Result<(), DockerError>)
        ensures
            final(self).network() == old(self).network(),
            !has_container(old(self).contents(), id@) ==> (r matches Err(e) && is_unknown(e, id@)
                && final(self).contents() == old(self).contents()),
            forall|i: int|
                container_at(old(self).contents(), id@, i) ==> {
                    &&& old(self).contents()[i].3 != Phase::Running ==> r is Ok && final(self).contents()
                        == old(self).contents().remove(i)
                    &&& old(self).contents()[i].3 == Phase::Running ==> (r matches Err(e) && is_refused(
                        e,
                        "Cannot remove a running container"@,
                    ) && final(self).contents() == old(self).contents())
                },
    {
        let ghost before = self.contents();
        match self.find(id) {
            Some(i) => {
                proof {
                    assert forall|j: int| container_at(before, id@, j) implies j == i by {
                        if j < i {
                            assert(before[j].0 != id@);
                        }
                        if i < j {
                            assert(before[i as int].0 == id@);
                        }
                    }
                }
                let p = phase(&self.containers[i].status);
                if p == Phase::Running {
                    return Err(DockerError::container_error("Cannot remove a running container"));
                }
                let _ = self.containers.remove(i);
                assert(self.contents() =~= before.remove(i as int));
                Ok(())
            },
            None => Err(Self::unknown(id)),
        }
    }

    /// The containers in the order they were created: all of them, or the
    /// running ones.
    pub fn list_containers(&self, all: bool) -> (r: Vec<RuntimeContainer>)
        ensures
            all ==> r@.map_values(|c: RuntimeContainer| runtime_view(c)) == self.contents(),
            !all ==> r@.map_values(|c: RuntimeContainer| runtime_view(c)) == running_only(self.contents()),
    {
        let mut r: Vec<RuntimeContainer> = Vec::new();
        let mut i: usize = 0;
        while i < self.containers.len()
            invariant
                i <= self.containers.len(),
                all ==> r@.map_values(|c: RuntimeContainer| runtime_view(c)) == self.contents().take(i as int),
                !all ==> r@.map_values(|c: RuntimeContainer| runtime_view(c)) == running_only(
                    self.contents().take(i as int),
                ),
            decreases self.containers.len() - i,
        {
            let ghost before = r@;
            assert(self.contents()[i as int] == runtime_view(self.containers@[i as int]));
            assert(self.contents().take(i + 1) =~= self.contents().take(i as int).push(self.contents()[i as int]));
            assert(self.contents().take(i + 1).drop_last() =~= self.contents().take(i as int));
            let p = phase(&self.containers[i].status);
            if all || p == Phase::Running {
                let c = copy_runtime_container(&self.containers[i]);
                r.push(c);
                assert(r@.map_values(|c: RuntimeContainer| runtime_view(c)) =~= before.map_values(
                    |c: RuntimeContainer| runtime_view(c),
                ).push(runtime_view(c)));
            }
            i = i + 1;
        }
        assert(self.contents().take(self.containers.len() as int) =~= self.contents());
        r
    }
}

/// The lifecycle of a container: a new one may start; one that may start
/// runs after starting and then can neither start again nor be removed,
/// only stopped; once stopped it may start again or be removed. Starting and stopping keep
/// its id, name, image, creation time and network, and record when it
/// started and stopped.
pub proof fn law_container_lifecycle(c: RuntimeView, t1: Timestamp, t2: Timestamp)
    requires
        can_start(c.3),
    ensures
        can_start(Phase::Creating),
        started(c, t1).3 == Phase::Running,
        !can_start(started(c, t1).3),
        can_start(stopped(started(c, t1), t2).3),
        stopped(started(c, t1), t2).3 != Phase::Running,
        ({
            let d = stopped(started(c, t1), t2);
            &&& d.0 == c.0 && d.1 == c.1 && d.2 == c.2 && d.4 == c.4 && d.8 == c.8
            &&& d.5 == Some(t1) && d.6 == Some(t2) && d.7 is None
        }),
{
}

} // verus!
