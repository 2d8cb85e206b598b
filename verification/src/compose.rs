//! Compose files: environment substitution, the `.env` format, and reading
//! services, networks and volumes out of a parsed compose document.
//!
//! Maps of the compose model are association lists: a key occurs once, and a
//! later binding of a key replaces the earlier one in place.
use vstd::prelude::*;
use crate::errors::{DockerError, DockerErrorKind};
use crate::text::{
    char_vecs, chars_of, concat_str, replace_spec, replace_str, split_chars, split_spec,
    starts_with_chars, starts_with_spec, string_from_chars, trim_chars, trim_spec, vec_chars_eq,
};
use crate::yaml::{
    as_mapping, as_sequence, as_str, assoc_insert, assoc_put, get, get_bool,
    get_boolean, get_map, get_mapping, get_seq, get_sequence, get_str, get_string, get_u64,
    get_unsigned, lookup, lookup_key, mapping_of, sequence_of, str_items, str_of, str_pairs,
    string_items, string_pairs, yaml_get, Yaml, merged, merge_yaml,
};

verus! {

broadcast use vstd::string::group_string_axioms;

// ---------------------------------------------------------------------------
// Environment variables.

/// `s` with the variable `key` replaced by `value`, first in its `${key}`
/// form and then in its `$key` form.
pub open spec fn replace_var(s: Seq<char>, key: Seq<char>, value: Seq<char>) -> Seq<char> {
    replace_spec(replace_spec(s, "${"@ + key + "}"@, value), "$"@ + key, value)
}

/// `s` with every variable of `env` replaced, one variable after the other
/// in the order of `env`.
pub open spec fn replace_env_spec(s: Seq<char>, env: Seq<(Seq<char>, Seq<char>)>) -> Seq<char>
    decreases env.len(),
{
    if env.len() == 0 {
        s
    } else {
        replace_var(replace_env_spec(s, env.drop_last()), env.last().0, env.last().1)
    }
}

/// Replaces the variables of `env_vars` in `s`, in the order of the list:
/// for each `(key, value)`, every `${key}` and then every `$key` becomes
/// `value`.
pub fn replace_env_vars(s: &str, env_vars: &Vec<(String, String)>) -> (out: String)
    ensures
        out@ == replace_env_spec(s@, env_vars.deep_view()),
{
    let mut result = s.to_string();
    let mut i: usize = 0;
    while i < env_vars.len()
        invariant
            i <= env_vars.len(),
            result@ == replace_env_spec(s@, env_vars.deep_view().take(i as int)),
        decreases env_vars.len() - i,
    {
        let key = env_vars[i].0.as_str();
        let value = env_vars[i].1.as_str();
        let open_brace = concat_str("${", key);
        let placeholder1 = concat_str(open_brace.as_str(), "}");
        let placeholder2 = concat_str("$", key);
        proof {
            reveal_strlit("${");
            reveal_strlit("$");
        }
        result = replace_str(result.as_str(), placeholder1.as_str(), value);
        result = replace_str(result.as_str(), placeholder2.as_str(), value);
        assert(env_vars.deep_view().take(i + 1).drop_last() =~= env_vars.deep_view().take(
            i as int,
        ));
        assert(env_vars.deep_view().take(i + 1).last() == env_vars.deep_view()[i as int]);
        i = i + 1;
    }
    assert(env_vars.deep_view().take(env_vars.len() as int) =~= env_vars.deep_view());
    result
}

/// The variables of one line of a `.env` file: comments and blank lines
/// bind nothing, otherwise the text before the first `=` is the key and the
/// text after it the value, both trimmed.
pub open spec fn env_line(line: Seq<char>) -> Option<(Seq<char>, Seq<char>)> {
    let t = trim_spec(line);
    if t.len() == 0 || t[0] == '#' {
        None
    } else {
        match crate::text::split_once_spec(line, '=') {
            Some((k, v)) => Some((trim_spec(k), trim_spec(v))),
            None => None,
        }
    }
}

/// The variables of the lines `lines`, a later binding replacing an earlier
/// one.
pub open spec fn env_bindings(lines: Seq<Seq<char>>) -> Seq<(Seq<char>, Seq<char>)>
    decreases lines.len(),
{
    if lines.len() == 0 {
        seq![]
    } else {
        let rest = env_bindings(lines.drop_last());
        match env_line(lines.last()) {
            Some((k, v)) => assoc_insert(rest, k, v),
            None => rest,
        }
    }
}

/// The variables a `.env` file binds. Its lines are the pieces between line
/// feeds; a carriage return before a line feed is white space, which the
/// trimming of keys, values and blank lines removes.
pub open spec fn env_file_spec(content: Seq<char>) -> Seq<(Seq<char>, Seq<char>)> {
    env_bindings(split_spec(content, '\n'))
}

/// The variables of one line of a `.env` file.
fn parse_env_line(line: &Vec<char>) -> (r: Option<(String, String)>)
    ensures
        match r {
            Some((k, v)) => env_line(line@) == Some((k@, v@)),
            None => env_line(line@) is None,
        },
{
    let t = trim_chars(line);
    if t.len() == 0 || t[0] == '#' {
        return None;
    }
    match crate::text::split_once_chars(line, '=') {
        Some((k, v)) => {
            let kt = trim_chars(&k);
            let vt = trim_chars(&v);
            Some((string_from_chars(&kt), string_from_chars(&vt)))
        },
        None => None,
    }
}

/// Reads the variables of the text of a `.env` file: one `KEY=VALUE` per
/// line, `#` comments and blank lines skipped, keys and values trimmed, a
/// later binding of a key replacing the earlier one.
pub fn parse_env_file(content: &str) -> (out: Vec<(String, String)>)
    ensures
        out.deep_view() == env_file_spec(content@),
{
    let chars = chars_of(content);
    let lines = split_chars(&chars, '\n');
    let mut out: Vec<(String, String)> = Vec::new();
    let mut i: usize = 0;
    while i < lines.len()
        invariant
            i <= lines.len(),
            char_vecs(lines@) == split_spec(content@, '\n'),
            out.deep_view() == env_bindings(char_vecs(lines@).take(i as int)),
        decreases lines.len() - i,
    {
        let ghost ls = char_vecs(lines@);
        assert(ls.take(i + 1).drop_last() =~= ls.take(i as int));
        assert(ls.take(i + 1).last() == lines@[i as int]@);
        match parse_env_line(&lines[i]) {
            Some((k, v)) => {
                assoc_put(&mut out, k, v);
            },
            None => {},
        }
        i = i + 1;
    }
    assert(char_vecs(lines@).take(lines.len() as int) =~= char_vecs(lines@));
    out
}

// ---------------------------------------------------------------------------
// The compose model.

/// A service of a compose file.
#[derive(Debug, Clone)]
pub struct ComposeService {
    pub name: String,
    pub image: String,
    pub build: Option<String>,
    pub ports: Vec<String>,
    pub environment: Vec<String>,
    pub environment_map: Option<Vec<(String, String)>>,
    pub env_file: Option<Vec<String>>,
    pub volumes: Vec<MountConfig>,
    pub command: Option<String>,
    pub working_dir: Option<String>,
    pub user: Option<String>,
    pub entrypoint: Option<String>,
    pub restart: Option<String>,
    pub healthcheck: Option<HealthCheckConfig>,
    pub deploy: Option<DeployConfig>,
    pub labels: Option<Vec<String>>,
    pub network_mode: Option<String>,
    pub networks: Vec<(String, NetworkServiceConfig)>,
    pub depends_on: Vec<String>,
    pub cap_add: Option<Vec<String>>,
    pub cap_drop: Option<Vec<String>>,
    pub cgroup_parent: Option<String>,
    pub device_cgroup_rules: Option<Vec<String>>,
    pub devices: Option<Vec<String>>,
    pub dns: Option<Vec<String>>,
    pub dns_search: Option<Vec<String>>,
    pub domainname: Option<String>,
    pub extra_hosts: Option<Vec<String>>,
    pub hostname: Option<String>,
    pub ipc: Option<String>,
    pub isolation: Option<String>,
    pub logging: Option<LoggingConfig>,
    pub mac_address: Option<String>,
    pub mem_limit: Option<String>,
    pub mem_reservation: Option<String>,
    pub oom_kill_disable: Option<bool>,
    pub oom_score_adj: Option<i32>,
    pub pid: Option<String>,
    pub pids_limit: Option<u64>,
    pub read_only: Option<bool>,
    pub shm_size: Option<String>,
    pub stdin_open: Option<bool>,
    pub stop_grace_period: Option<String>,
    pub stop_signal: Option<String>,
    pub tty: Option<bool>,
    pub ulimits: Option<Vec<(String, UlimitConfig)>>,
    pub sysctls: Option<Vec<(String, String)>>,
    pub profiles: Option<Vec<String>>,
    pub extends: Option<ExtendsConfig>,
}

/// How a service joins a network.
#[derive(Debug, Clone)]
pub struct NetworkServiceConfig {
    pub aliases: Vec<String>,
    pub ipv4_address: Option<String>,
    pub ipv6_address: Option<String>,
}

impl DeepView for NetworkServiceConfig {
    type V = (Seq<Seq<char>>, Option<Seq<char>>, Option<Seq<char>>);

    open spec fn deep_view(&self) -> Self::V {
        (self.aliases.deep_view(), self.ipv4_address.deep_view(), self.ipv6_address.deep_view())
    }
}

/// The health check of a service.
#[derive(Debug, Clone)]
pub struct HealthCheckConfig {
    pub test: Vec<String>,
    pub interval: Option<String>,
    pub timeout: Option<String>,
    pub retries: Option<u32>,
    pub start_period: Option<String>,
}

impl DeepView for HealthCheckConfig {
    type V = (Seq<Seq<char>>, Option<Seq<char>>, Option<Seq<char>>, Option<u32>, Option<Seq<char>>);

    open spec fn deep_view(&self) -> Self::V {
        (
            self.test.deep_view(),
            self.interval.deep_view(),
            self.timeout.deep_view(),
            self.retries,
            self.start_period.deep_view(),
        )
    }
}

/// The deployment settings of a service.
#[derive(Debug, Clone)]
pub struct DeployConfig {
    pub replicas: Option<u32>,
    pub restart_policy: Option<RestartPolicyConfig>,
    pub resources: Option<ResourcesConfig>,
    pub labels: Option<Vec<String>>,
}

impl DeepView for DeployConfig {
    type V = (
        Option<u32>,
        Option<(Option<Seq<char>>, Option<Seq<char>>, Option<u32>, Option<Seq<char>>)>,
        Option<(Option<(Option<Seq<char>>, Option<Seq<char>>)>, Option<(Option<Seq<char>>, Option<Seq<char>>)>)>,
        Option<Seq<Seq<char>>>,
    );

    open spec fn deep_view(&self) -> Self::V {
        (
            self.replicas,
            self.restart_policy.deep_view(),
            self.resources.deep_view(),
            self.labels.deep_view(),
        )
    }
}

/// When a service is restarted.
#[derive(Debug, Clone)]
pub struct RestartPolicyConfig {
    pub condition: Option<String>,
    pub delay: Option<String>,
    pub max_attempts: Option<u32>,
    pub window: Option<String>,
}

impl DeepView for RestartPolicyConfig {
    type V = (Option<Seq<char>>, Option<Seq<char>>, Option<u32>, Option<Seq<char>>);

    open spec fn deep_view(&self) -> Self::V {
        (
            self.condition.deep_view(),
            self.delay.deep_view(),
            self.max_attempts,
            self.window.deep_view(),
        )
    }
}

/// The resources of a service.
#[derive(Debug, Clone)]
pub struct ResourcesConfig {
    pub limits: Option<ResourceLimits>,
    pub reservations: Option<ResourceReservations>,
}

impl DeepView for ResourcesConfig {
    type V = (Option<(Option<Seq<char>>, Option<Seq<char>>)>, Option<(Option<Seq<char>>, Option<Seq<char>>)>);

    open spec fn deep_view(&self) -> Self::V {
        (self.limits.deep_view(), self.reservations.deep_view())
    }
}

/// Upper limits on the resources of a service.
#[derive(Debug, Clone)]
pub struct ResourceLimits {
    pub cpus: Option<String>,
    pub memory: Option<String>,
}

impl DeepView for ResourceLimits {
    type V = (Option<Seq<char>>, Option<Seq<char>>);

    open spec fn deep_view(&self) -> Self::V {
        (self.cpus.deep_view(), self.memory.deep_view())
    }
}

/// Resources reserved for a service.
#[derive(Debug, Clone)]
pub struct ResourceReservations {
    pub cpus: Option<String>,
    pub memory: Option<String>,
}

impl DeepView for ResourceReservations {
    type V = (Option<Seq<char>>, Option<Seq<char>>);

    open spec fn deep_view(&self) -> Self::V {
        (self.cpus.deep_view(), self.memory.deep_view())
    }
}

/// A network of a compose file.
#[derive(Debug, Clone)]
pub struct NetworkConfig {
    pub name: String,
    pub driver: String,
    pub driver_opts: Option<Vec<(String, String)>>,
    pub ipam: Option<IpamConfig>,
    pub internal: bool,
    pub external: bool,
    pub attachable: bool,
    pub enable_ipv6: bool,
    pub labels: Option<Vec<(String, String)>>,
}

/// The view of a compose network.
pub type NetworkView = (
    Seq<char>,
    Seq<char>,
    Option<Seq<(Seq<char>, Seq<char>)>>,
    Option<(Seq<char>, Seq<(Seq<char>, Option<Seq<char>>, Option<Seq<char>>)>)>,
    bool,
    bool,
    bool,
    bool,
    Option<Seq<(Seq<char>, Seq<char>)>>,
);

impl DeepView for NetworkConfig {
    type V = NetworkView;

    open spec fn deep_view(&self) -> Self::V {
        (
            self.name@,
            self.driver@,
            self.driver_opts.deep_view(),
            self.ipam.deep_view(),
            self.internal,
            self.external,
            self.attachable,
            self.enable_ipv6,
            self.labels.deep_view(),
        )
    }
}

/// Address management settings of a compose network.
#[derive(Debug, Clone)]
pub struct IpamConfig {
    pub driver: String,
    pub config: Vec<IpamSubnetConfig>,
}

impl DeepView for IpamConfig {
    type V = (Seq<char>, Seq<(Seq<char>, Option<Seq<char>>, Option<Seq<char>>)>);

    open spec fn deep_view(&self) -> Self::V {
        (self.driver@, self.config.deep_view())
    }
}

/// One subnet of a compose network.
#[derive(Debug, Clone)]
pub struct IpamSubnetConfig {
    pub subnet: String,
    pub gateway: Option<String>,
    pub ip_range: Option<String>,
}

impl DeepView for IpamSubnetConfig {
    type V = (Seq<char>, Option<Seq<char>>, Option<Seq<char>>);

    open spec fn deep_view(&self) -> Self::V {
        (self.subnet@, self.gateway.deep_view(), self.ip_range.deep_view())
    }
}

/// A named volume of a compose file.
#[derive(Debug, Clone)]
pub struct VolumeConfig {
    pub name: String,
    pub driver: String,
    pub driver_opts: Option<Vec<(String, String)>>,
    pub labels: Option<Vec<(String, String)>>,
    pub external: bool,
    pub internal: bool,
}

/// The view of a compose volume.
pub type VolumeView = (
    Seq<char>,
    Seq<char>,
    Option<Seq<(Seq<char>, Seq<char>)>>,
    Option<Seq<(Seq<char>, Seq<char>)>>,
    bool,
    bool,
);

impl DeepView for VolumeConfig {
    type V = VolumeView;

    open spec fn deep_view(&self) -> Self::V {
        (
            self.name@,
            self.driver@,
            self.driver_opts.deep_view(),
            self.labels.deep_view(),
            self.external,
            self.internal,
        )
    }
}

/// A mount of a service: a volume, a bind mount or a tmpfs.
#[derive(Debug, Clone)]
pub struct MountConfig {
    pub source: String,
    pub target: String,
    pub read_only: bool,
    pub mount_type: String,
    pub consistency: Option<String>,
    pub tmpfs_size: Option<u64>,
    pub tmpfs_mode: Option<u32>,
}

/// The view of a mount.
pub type MountView = (Seq<char>, Seq<char>, bool, Seq<char>, Option<Seq<char>>, Option<u64>, Option<u32>);

impl DeepView for MountConfig {
    type V = MountView;

    open spec fn deep_view(&self) -> Self::V {
        (
            self.source@,
            self.target@,
            self.read_only,
            self.mount_type@,
            self.consistency.deep_view(),
            self.tmpfs_size,
            self.tmpfs_mode,
        )
    }
}

/// The logging settings of a service.
#[derive(Debug, Clone)]
pub struct LoggingConfig {
    pub driver: String,
    pub options: Option<Vec<(String, String)>>,
}

/// A resource limit of a service.
#[derive(Debug, Clone)]
pub struct UlimitConfig {
    pub soft: Option<u64>,
    pub hard: Option<u64>,
}

/// The service a service extends.
#[derive(Debug, Clone)]
pub struct ExtendsConfig {
    pub service: String,
    pub file: Option<String>,
}

/// The settings a service has that the compose document does not set.
pub open spec fn unset_options(s: ComposeService) -> bool {
    &&& s.cap_add is None
    &&& s.cap_drop is None
    &&& s.cgroup_parent is None
    &&& s.device_cgroup_rules is None
    &&& s.devices is None
    &&& s.dns is None
    &&& s.dns_search is None
    &&& s.domainname is None
    &&& s.extra_hosts is None
    &&& s.hostname is None
    &&& s.ipc is None
    &&& s.isolation is None
    &&& s.logging is None
    &&& s.mac_address is None
    &&& s.mem_limit is None
    &&& s.mem_reservation is None
    &&& s.oom_kill_disable is None
    &&& s.oom_score_adj is None
    &&& s.pid is None
    &&& s.pids_limit is None
    &&& s.read_only is None
    &&& s.shm_size is None
    &&& s.stdin_open is None
    &&& s.stop_grace_period is None
    &&& s.stop_signal is None
    &&& s.tty is None
    &&& s.ulimits is None
    &&& s.sysctls is None
    &&& s.profiles is None
    &&& s.extends is None
}

/// The service a compose file defines when it says nothing about it.
pub open spec fn default_service(s: ComposeService, name: Seq<char>) -> bool {
    &&& s.name@ == name
    &&& s.image@ == "nginx:latest"@
    &&& s.build is None
    &&& s.ports.deep_view() == seq!["80:80"@]
    &&& s.environment@.len() == 0
    &&& s.environment_map is None
    &&& s.env_file is None
    &&& s.volumes@.len() == 0
    &&& s.command is None
    &&& s.working_dir is None
    &&& s.user is None
    &&& s.entrypoint is None
    &&& s.restart is None
    &&& s.healthcheck is None
    &&& s.deploy is None
    &&& s.labels is None
    &&& s.network_mode is None
    &&& s.networks@.len() == 0
    &&& s.depends_on@.len() == 0
    &&& unset_options(s)
}

impl ComposeService {
    /// A service called `name` with the defaults: the `nginx:latest` image
    /// published on port `80:80`, and nothing else set.
    pub fn default(name: &str) -> (s: Self)
        ensures
            default_service(s, name@),
    {
        let mut ports: Vec<String> = Vec::new();
        ports.push("80:80".to_string());
        let s = ComposeService {
            name: name.to_string(),
            image: "nginx:latest".to_string(),
            build: None,
            ports,
            environment: Vec::new(),
            environment_map: None,
            env_file: None,
            volumes: Vec::new(),
            command: None,
            working_dir: None,
            user: None,
            entrypoint: None,
            restart: None,
            healthcheck: None,
            deploy: None,
            labels: None,
            network_mode: None,
            networks: Vec::new(),
            depends_on: Vec::new(),
            cap_add: None,
            cap_drop: None,
            cgroup_parent: None,
            device_cgroup_rules: None,
            devices: None,
            dns: None,
            dns_search: None,
            domainname: None,
            extra_hosts: None,
            hostname: None,
            ipc: None,
            isolation: None,
            logging: None,
            mac_address: None,
            mem_limit: None,
            mem_reservation: None,
            oom_kill_disable: None,
            oom_score_adj: None,
            pid: None,
            pids_limit: None,
            read_only: None,
            shm_size: None,
            stdin_open: None,
            stop_grace_period: None,
            stop_signal: None,
            tty: None,
            ulimits: None,
            sysctls: None,
            profiles: None,
            extends: None,
        };
        assert(s.ports.deep_view() =~= seq!["80:80"@]);
        s
    }
}


// ---------------------------------------------------------------------------
// Reading a service.

/// `o` as a `u32`, truncated as Rust's `as` does.
pub open spec fn opt_u32(o: Option<u64>) -> Option<u32> {
    match o {
        Some(n) => Some(n as u32),
        None => None,
    }
}

/// The string items of an optional sequence; none when it is absent.
pub open spec fn opt_items(o: Option<Seq<Yaml>>) -> Seq<Seq<char>> {
    match o {
        Some(items) => str_items(items),
        None => seq![],
    }
}

/// The string items of an optional sequence, when it is present.
pub open spec fn opt_item_list(o: Option<Seq<Yaml>>) -> Option<Seq<Seq<char>>> {
    match o {
        Some(items) => Some(str_items(items)),
        None => None,
    }
}

/// The string pairs of an optional mapping, when it is present.
pub open spec fn opt_pairs(o: Option<Seq<(Yaml, Yaml)>>) -> Option<Seq<(Seq<char>, Seq<char>)>> {
    match o {
        Some(entries) => Some(str_pairs(entries)),
        None => None,
    }
}

/// The mount that a volume string `source:target[:mode]` describes: a bind
/// mount when the source is an absolute path, a named volume otherwise,
/// read-only when the mode is `ro`. Fewer than two parts describe none.
pub open spec fn mount_entry(s: Seq<char>) -> Option<MountView> {
    let parts = split_spec(s, ':');
    if parts.len() >= 2 {
        Some(
            (
                parts[0],
                parts[1],
                parts.len() >= 3 && parts[2] == "ro"@,
                if starts_with_spec(parts[0], "/"@) {
                    "bind"@
                } else {
                    "volume"@
                },
                None,
                None,
                None,
            ),
        )
    } else {
        None
    }
}

/// A volume `SOURCE:TARGET` mounts `SOURCE` (the text before the first
/// `:`) at `TARGET` (the text after it), read-write.
pub proof fn law_mount_source_then_target(source: Seq<char>, target: Seq<char>)
    requires
        !crate::text::has_char(source, ':'),
        !crate::text::has_char(target, ':'),
    ensures
        mount_entry(source + ":"@ + target) matches Some(m) && m.0 == source && m.1 == target && !m.2,
{
    reveal_strlit(":");
    let s = source + ":"@ + target;
    assert(s =~= source + seq![':'] + target);
    crate::text::lemma_split_concat(source, target, ':');
    crate::text::lemma_split_without_separator(source, ':');
    crate::text::lemma_split_without_separator(target, ':');
    assert(split_spec(s, ':') =~= seq![source, target]);
}

/// A volume `SOURCE:TARGET:MODE` mounts `SOURCE` at `TARGET`, read-only
/// exactly when the mode is `ro`.
pub proof fn law_mount_with_mode(source: Seq<char>, target: Seq<char>, mode: Seq<char>)
    requires
        !crate::text::has_char(source, ':'),
        !crate::text::has_char(target, ':'),
        !crate::text::has_char(mode, ':'),
    ensures
        mount_entry(source + ":"@ + target + ":"@ + mode) matches Some(m) && m.0 == source && m.1 == target
            && m.2 == (mode == "ro"@),
{
    reveal_strlit(":");
    let s = source + ":"@ + target + ":"@ + mode;
    let rest = target + seq![':'] + mode;
    assert(s =~= source + seq![':'] + rest);
    crate::text::lemma_split_concat(source, rest, ':');
    crate::text::lemma_split_concat(target, mode, ':');
    crate::text::lemma_split_without_separator(source, ':');
    crate::text::lemma_split_without_separator(target, ':');
    crate::text::lemma_split_without_separator(mode, ':');
    assert(split_spec(s, ':') =~= seq![source, target, mode]);
}

/// A volume is a bind mount exactly when its source is an absolute path
/// (begins with `/`), a named volume otherwise; a string without `:`
/// describes no mount.
pub proof fn law_mount_kind(s: Seq<char>)
    ensures
        mount_entry(s) matches Some(m) ==> (m.3 == "bind"@ <==> starts_with_spec(m.0, "/"@)),
        mount_entry(s) matches Some(m) ==> (m.3 == "bind"@ || m.3 == "volume"@),
        !crate::text::has_char(s, ':') ==> mount_entry(s) is None,
{
    reveal_strlit("bind");
    reveal_strlit("volume");
    assert("bind"@.len() == 4 && "volume"@.len() == 6);
    assert("bind"@ != "volume"@);
    if !crate::text::has_char(s, ':') {
        crate::text::lemma_split_without_separator(s, ':');
    }
}

/// The mounts of a service's `volumes` sequence.
pub open spec fn mounts_spec(items: Seq<Yaml>) -> Seq<MountView>
    decreases items.len(),
{
    if items.len() == 0 {
        seq![]
    } else {
        let rest = mounts_spec(items.drop_last());
        match str_of(items.last()) {
            Some(s) => match mount_entry(s) {
                Some(m) => rest.push(m),
                None => rest,
            },
            None => rest,
        }
    }
}

/// The health check that a `healthcheck` value describes.
pub open spec fn health_spec(h: Yaml) -> (
    Seq<Seq<char>>,
    Option<Seq<char>>,
    Option<Seq<char>>,
    Option<u32>,
    Option<Seq<char>>,
) {
    (
        opt_items(get_seq(h, "test"@)),
        get_str(h, "interval"@),
        get_str(h, "timeout"@),
        opt_u32(get_u64(h, "retries"@)),
        get_str(h, "start_period"@),
    )
}

/// The restart policy that a `restart_policy` value describes.
pub open spec fn restart_policy_spec(r: Yaml) -> (
    Option<Seq<char>>,
    Option<Seq<char>>,
    Option<u32>,
    Option<Seq<char>>,
) {
    (
        get_str(r, "condition"@),
        get_str(r, "delay"@),
        opt_u32(get_u64(r, "max_attempts"@)),
        get_str(r, "window"@),
    )
}

/// The CPU and memory amounts of a `limits` or `reservations` value.
pub open spec fn amounts_spec(l: Yaml) -> (Option<Seq<char>>, Option<Seq<char>>) {
    (get_str(l, "cpus"@), get_str(l, "memory"@))
}

/// The amounts under `key`, when present.
pub open spec fn opt_amounts(v: Yaml, key: Seq<char>) -> Option<(Option<Seq<char>>, Option<Seq<char>>)> {
    match yaml_get(v, key) {
        Some(l) => Some(amounts_spec(l)),
        None => None,
    }
}

/// The deployment settings that a `deploy` value describes.
pub open spec fn deploy_spec(d: Yaml) -> <DeployConfig as DeepView>::V {
    (
        opt_u32(get_u64(d, "replicas"@)),
        match yaml_get(d, "restart_policy"@) {
            Some(r) => Some(restart_policy_spec(r)),
            None => None,
        },
        match yaml_get(d, "resources"@) {
            Some(r) => Some((opt_amounts(r, "limits"@), opt_amounts(r, "reservations"@))),
            None => None,
        },
        opt_item_list(get_seq(d, "labels"@)),
    )
}

/// How a service joins the network whose settings are `config`.
pub open spec fn service_network_spec(config: Yaml) -> <NetworkServiceConfig as DeepView>::V {
    match mapping_of(config) {
        Some(m) => (
            match lookup(m, "aliases"@) {
                Some(a) => opt_items(sequence_of(a)),
                None => seq![],
            },
            match lookup(m, "ipv4_address"@) {
                Some(x) => str_of(x),
                None => None,
            },
            match lookup(m, "ipv6_address"@) {
                Some(x) => str_of(x),
                None => None,
            },
        ),
        None => (seq![], None, None),
    }
}

/// The networks of a service's `networks` mapping, by name.
pub open spec fn service_networks_spec(entries: Seq<(Yaml, Yaml)>) -> Seq<
    (Seq<char>, <NetworkServiceConfig as DeepView>::V),
>
    decreases entries.len(),
{
    if entries.len() == 0 {
        seq![]
    } else {
        let rest = service_networks_spec(entries.drop_last());
        match str_of(entries.last().0) {
            Some(n) => assoc_insert(rest, n, service_network_spec(entries.last().1)),
            None => rest,
        }
    }
}

/// The list form of a service's `environment`.
pub open spec fn environment_list(value: Yaml) -> Seq<Seq<char>> {
    match yaml_get(value, "environment"@) {
        Some(e) => opt_items(sequence_of(e)),
        None => seq![],
    }
}

/// The mapping form of a service's `environment`.
pub open spec fn environment_pairs(value: Yaml) -> Option<Seq<(Seq<char>, Seq<char>)>> {
    match yaml_get(value, "environment"@) {
        Some(e) => match sequence_of(e) {
            Some(_) => None,
            None => opt_pairs(mapping_of(e)),
        },
        None => None,
    }
}

/// A service's `env_file`: a list of files, or a single one.
pub open spec fn env_files(value: Yaml) -> Option<Seq<Seq<char>>> {
    match yaml_get(value, "env_file"@) {
        Some(f) => match sequence_of(f) {
            Some(items) => Some(str_items(items)),
            None => match str_of(f) {
                Some(s) => Some(seq![s]),
                None => None,
            },
        },
        None => None,
    }
}

/// `s` is the service called `name` that the compose value `value`
/// describes: each setting read from its key, the defaults kept otherwise,
/// and the ports read appended to the default `80:80`.
pub open spec fn parsed_service(s: ComposeService, name: Seq<char>, value: Yaml) -> bool {
    &&& s.name@ == name
    &&& s.image@ == match get_str(value, "image"@) {
        Some(i) => i,
        None => "nginx:latest"@,
    }
    &&& s.build.deep_view() == get_str(value, "build"@)
    &&& s.ports.deep_view() == seq!["80:80"@] + opt_items(get_seq(value, "ports"@))
    &&& s.environment.deep_view() == environment_list(value)
    &&& s.environment_map.deep_view() == environment_pairs(value)
    &&& s.env_file.deep_view() == env_files(value)
    &&& s.volumes.deep_view() == match get_seq(value, "volumes"@) {
        Some(items) => mounts_spec(items),
        None => seq![],
    }
    &&& s.command.deep_view() == get_str(value, "command"@)
    &&& s.working_dir.deep_view() == get_str(value, "working_dir"@)
    &&& s.user.deep_view() == get_str(value, "user"@)
    &&& s.entrypoint.deep_view() == get_str(value, "entrypoint"@)
    &&& s.restart.deep_view() == get_str(value, "restart"@)
    &&& s.healthcheck.deep_view() == match yaml_get(value, "healthcheck"@) {
        Some(h) => Some(health_spec(h)),
        None => None,
    }
    &&& s.deploy.deep_view() == match yaml_get(value, "deploy"@) {
        Some(d) => Some(deploy_spec(d)),
        None => None,
    }
    &&& s.labels.deep_view() == opt_item_list(get_seq(value, "labels"@))
    &&& s.network_mode.deep_view() == get_str(value, "network_mode"@)
    &&& s.networks.deep_view() == match get_map(value, "networks"@) {
        Some(entries) => service_networks_spec(entries),
        None => seq![],
    }
    &&& s.depends_on.deep_view() == opt_items(get_seq(value, "depends_on"@))
    &&& unset_options(s)
}


/// The string items of an optional sequence; none when it is absent.
fn optional_items(o: Option<&Vec<Yaml>>) -> (out: Vec<String>)
    ensures
        out.deep_view() == opt_items(
            match o {
                Some(v) => Some(v@),
                None => None,
            },
        ),
{
    match o {
        Some(items) => string_items(items),
        None => Vec::new(),
    }
}

/// The string items of an optional sequence, when it is present.
fn optional_item_list(o: Option<&Vec<Yaml>>) -> (out: Option<Vec<String>>)
    ensures
        out.deep_view() == opt_item_list(
            match o {
                Some(v) => Some(v@),
                None => None,
            },
        ),
{
    match o {
        Some(items) => Some(string_items(items)),
        None => None,
    }
}

/// The string pairs of an optional mapping, when it is present.
fn optional_pairs(o: Option<&Vec<(Yaml, Yaml)>>) -> (out: Option<Vec<(String, String)>>)
    ensures
        out.deep_view() == opt_pairs(
            match o {
                Some(v) => Some(v@),
                None => None,
            },
        ),
{
    match o {
        Some(entries) => Some(string_pairs(entries)),
        None => None,
    }
}

/// Appends the strings of `w` to `v`.
fn append_strings(v: &mut Vec<String>, w: Vec<String>)
    ensures
        final(v).deep_view() == old(v).deep_view() + w.deep_view(),
{
    let ghost start = v.deep_view();
    let mut i: usize = 0;
    while i < w.len()
        invariant
            i <= w.len(),
            v.deep_view() == start + w.deep_view().take(i as int),
        decreases w.len() - i,
    {
        let ghost before = v.deep_view();
        v.push(w[i].clone());
        assert(v.deep_view() =~= before.push(w[i as int]@));
        assert(w.deep_view().take(i + 1) =~= w.deep_view().take(i as int).push(w[i as int]@));
        i = i + 1;
    }
    assert(w.deep_view().take(w.len() as int) =~= w.deep_view());
}

/// The mount that a volume string describes.
fn mount_from(s: &String) -> (r: Option<MountConfig>)
    ensures
        match r {
            Some(m) => mount_entry(s@) == Some(m.deep_view()),
            None => mount_entry(s@) is None,
        },
{
    let cs = chars_of(s.as_str());
    let parts = split_chars(&cs, ':');
    if parts.len() >= 2 {
        let ghost ps = char_vecs(parts@);
        assert(ps[0] == parts@[0]@ && ps[1] == parts@[1]@);
        let source = string_from_chars(&parts[0]);
        let target = string_from_chars(&parts[1]);
        let ro = chars_of("ro");
        let read_only = parts.len() >= 3 && vec_chars_eq(&parts[2], &ro);
        assert(parts.len() >= 3 ==> ps[2] == parts@[2]@);
        let slash = chars_of("/");
        let mount_type = if starts_with_chars(&parts[0], &slash) {
            "bind".to_string()
        } else {
            "volume".to_string()
        };
        Some(
            MountConfig {
                source,
                target,
                read_only,
                mount_type,
                consistency: None,
                tmpfs_size: None,
                tmpfs_mode: None,
            },
        )
    } else {
        None
    }
}

/// The mounts of a `volumes` sequence.
fn mounts_from(items: &Vec<Yaml>) -> (out: Vec<MountConfig>)
    ensures
        out.deep_view() == mounts_spec(items@),
{
    let mut out: Vec<MountConfig> = Vec::new();
    let mut i: usize = 0;
    while i < items.len()
        invariant
            i <= items.len(),
            out.deep_view() == mounts_spec(items@.take(i as int)),
        decreases items.len() - i,
    {
        let ghost before = out.deep_view();
        assert(items@.take(i + 1).drop_last() == items@.take(i as int));
        assert(items@.take(i + 1).last() == items@[i as int]);
        match as_str(&items[i]) {
            Some(s) => match mount_from(s) {
                Some(m) => {
                    let ghost mv = m.deep_view();
                    out.push(m);
                    assert(out.deep_view() =~= before.push(mv));
                },
                None => {},
            },
            None => {},
        }
        i = i + 1;
    }
    assert(items@.take(items.len() as int) == items@);
    out
}

/// The health check that a `healthcheck` value describes.
fn health_from(h: &Yaml) -> (c: HealthCheckConfig)
    ensures
        c.deep_view() == health_spec(*h),
{
    HealthCheckConfig {
        test: optional_items(get_sequence(h, "test")),
        interval: get_string(h, "interval"),
        timeout: get_string(h, "timeout"),
        retries: match get_unsigned(h, "retries") {
            Some(n) => Some(n as u32),
            None => None,
        },
        start_period: get_string(h, "start_period"),
    }
}

/// The restart policy that a `restart_policy` value describes.
fn restart_policy_from(r: &Yaml) -> (c: RestartPolicyConfig)
    ensures
        c.deep_view() == restart_policy_spec(*r),
{
    RestartPolicyConfig {
        condition: get_string(r, "condition"),
        delay: get_string(r, "delay"),
        max_attempts: match get_unsigned(r, "max_attempts") {
            Some(n) => Some(n as u32),
            None => None,
        },
        window: get_string(r, "window"),
    }
}

/// The deployment settings that a `deploy` value describes.
fn deploy_from(d: &Yaml) -> (c: DeployConfig)
    ensures
        c.deep_view() == deploy_spec(*d),
{
    let resources = match get(d, "resources") {
        Some(r) => Some(
            ResourcesConfig {
                limits: match get(r, "limits") {
                    Some(l) => Some(
                        ResourceLimits {
                            cpus: get_string(l, "cpus"),
                            memory: get_string(l, "memory"),
                        },
                    ),
                    None => None,
                },
                reservations: match get(r, "reservations") {
                    Some(l) => Some(
                        ResourceReservations {
                            cpus: get_string(l, "cpus"),
                            memory: get_string(l, "memory"),
                        },
                    ),
                    None => None,
                },
            },
        ),
        None => None,
    };
    DeployConfig {
        replicas: match get_unsigned(d, "replicas") {
            Some(n) => Some(n as u32),
            None => None,
        },
        restart_policy: match get(d, "restart_policy") {
            Some(r) => Some(restart_policy_from(r)),
            None => None,
        },
        resources,
        labels: optional_item_list(get_sequence(d, "labels")),
    }
}

/// How a service joins the network whose settings are `config`.
fn service_network_from(config: &Yaml) -> (c: NetworkServiceConfig)
    ensures
        c.deep_view() == service_network_spec(*config),
{
    match as_mapping(config) {
        Some(m) => NetworkServiceConfig {
            aliases: match lookup_key(m, "aliases") {
                Some(a) => optional_items(as_sequence(a)),
                None => Vec::new(),
            },
            ipv4_address: match lookup_key(m, "ipv4_address") {
                Some(x) => match as_str(x) {
                    Some(s) => Some(s.clone()),
                    None => None,
                },
                None => None,
            },
            ipv6_address: match lookup_key(m, "ipv6_address") {
                Some(x) => match as_str(x) {
                    Some(s) => Some(s.clone()),
                    None => None,
                },
                None => None,
            },
        },
        None => NetworkServiceConfig { aliases: Vec::new(), ipv4_address: None, ipv6_address: None },
    }
}

/// The networks of a service's `networks` mapping, by name.
fn service_networks_from(entries: &Vec<(Yaml, Yaml)>) -> (out: Vec<(String, NetworkServiceConfig)>)
    ensures
        out.deep_view() == service_networks_spec(entries@),
{
    let mut out: Vec<(String, NetworkServiceConfig)> = Vec::new();
    let mut i: usize = 0;
    while i < entries.len()
        invariant
            i <= entries.len(),
            out.deep_view() == service_networks_spec(entries@.take(i as int)),
        decreases entries.len() - i,
    {
        assert(entries@.take(i + 1).drop_last() == entries@.take(i as int));
        assert(entries@.take(i + 1).last() == entries@[i as int]);
        match as_str(&entries[i].0) {
            Some(n) => {
                let c = service_network_from(&entries[i].1);
                assoc_put(&mut out, n.clone(), c);
            },
            None => {},
        }
        i = i + 1;
    }
    assert(entries@.take(entries.len() as int) == entries@);
    out
}

/// Reads the service called `name` from its compose value: the image, build
/// context, ports (after the default `80:80`), environment in list or
/// mapping form, env files, volumes, command, working directory, user,
/// entry point, restart policy, health check, deployment settings, labels,
/// network mode, networks and dependencies; settings that are absent or of
/// another type keep their defaults.
#[verifier::rlimit(40)]
pub fn parse_service(name: &str, value: &Yaml) -> (r: Result<ComposeService, DockerError>)
    ensures
        r matches Ok(s) && parsed_service(s, name@, *value),
{
    let mut service = ComposeService::default(name);
    match get_string(value, "image") {
        Some(i) => {
            service.image = i;
        },
        None => {},
    }
    service.build = get_string(value, "build");
    let ports = optional_items(get_sequence(value, "ports"));
    append_strings(&mut service.ports, ports);
    match get(value, "environment") {
        Some(e) => match as_sequence(e) {
            Some(items) => {
                service.environment = string_items(items);
            },
            None => {
                service.environment_map = optional_pairs(as_mapping(e));
            },
        },
        None => {},
    }
    match get(value, "env_file") {
        Some(f) => match as_sequence(f) {
            Some(items) => {
                service.env_file = Some(string_items(items));
            },
            None => match as_str(f) {
                Some(one) => {
                    let mut files: Vec<String> = Vec::new();
                    files.push(one.clone());
                    assert(files.deep_view() =~= seq![one@]);
                    service.env_file = Some(files);
                },
                None => {},
            },
        },
        None => {},
    }
    match get_sequence(value, "volumes") {
        Some(items) => {
            service.volumes = mounts_from(items);
        },
        None => {},
    }
    service.command = get_string(value, "command");
    service.working_dir = get_string(value, "working_dir");
    service.user = get_string(value, "user");
    service.entrypoint = get_string(value, "entrypoint");
    service.restart = get_string(value, "restart");
    service.healthcheck = match get(value, "healthcheck") {
        Some(h) => Some(health_from(h)),
        None => None,
    };
    service.deploy = match get(value, "deploy") {
        Some(d) => Some(deploy_from(d)),
        None => None,
    };
    service.labels = optional_item_list(get_sequence(value, "labels"));
    service.network_mode = get_string(value, "network_mode");
    match get_mapping(value, "networks") {
        Some(entries) => {
            service.networks = service_networks_from(entries);
        },
        None => {},
    }
    service.depends_on = optional_items(get_sequence(value, "depends_on"));
    assert(service.environment.deep_view() =~= environment_list(*value));
    assert(service.volumes.deep_view() =~= match get_seq(*value, "volumes"@) {
        Some(items) => mounts_spec(items),
        None => seq![],
    });
    assert(service.networks.deep_view() =~= match get_map(*value, "networks"@) {
        Some(entries) => service_networks_spec(entries),
        None => seq![],
    });
    assert(parsed_service(service, name@, *value));
    Ok(service)
}


/// The entries of a mapping whose key is a string, with their keys' strings.
pub open spec fn named_values(entries: Seq<(Yaml, Yaml)>) -> Seq<(Seq<char>, Yaml)>
    decreases entries.len(),
{
    if entries.len() == 0 {
        seq![]
    } else {
        let rest = named_values(entries.drop_last());
        match str_of(entries.last().0) {
            Some(n) => rest.push((n, entries.last().1)),
            None => rest,
        }
    }
}

/// The named entries of the mapping under `key` of `config`.
pub open spec fn section(config: Yaml, key: Seq<char>) -> Seq<(Seq<char>, Yaml)> {
    match get_map(config, key) {
        Some(entries) => named_values(entries),
        None => seq![],
    }
}

/// `services` are the services of `config`, one for each string key of
/// its `services` mapping, in document order.
pub open spec fn parsed_services(services: Seq<ComposeService>, config: Yaml) -> bool {
    let named = section(config, "services"@);
    &&& services.len() == named.len()
    &&& forall|i: int|
        0 <= i < named.len() ==> parsed_service(#[trigger] services[i], named[i].0, named[i].1)
}

/// Reads every service of a compose document.
pub fn parse_services(config: &Yaml) -> (r: Result<Vec<ComposeService>, DockerError>)
    ensures
        r matches Ok(services) && parsed_services(services@, *config),
{
    let mut services: Vec<ComposeService> = Vec::new();
    match get_mapping(config, "services") {
        Some(entries) => {
            let mut i: usize = 0;
            while i < entries.len()
                invariant
                    i <= entries.len(),
                    get_map(*config, "services"@) == Some(entries@),
                    services@.len() == named_values(entries@.take(i as int)).len(),
                    forall|j: int|
                        0 <= j < services@.len() ==> parsed_service(
                            #[trigger] services@[j],
                            named_values(entries@.take(i as int))[j].0,
                            named_values(entries@.take(i as int))[j].1,
                        ),
                decreases entries.len() - i,
            {
                assert(entries@.take(i + 1).drop_last() == entries@.take(i as int));
                assert(entries@.take(i + 1).last() == entries@[i as int]);
                match as_str(&entries[i].0) {
                    Some(n) => {
                        let r = parse_service(n.as_str(), &entries[i].1);
                        match r {
                            Ok(svc) => {
                                services.push(svc);
                            },
                            Err(_) => {},
                        }
                    },
                    None => {},
                }
                i = i + 1;
            }
            assert(entries@.take(entries.len() as int) == entries@);
        },
        None => {},
    }
    Ok(services)
}

/// Fails when a compose document defines no `services`.
pub fn validate_compose_config(config: &Yaml) -> (r: Result<(), DockerError>)
    ensures
        match yaml_get(*config, "services"@) {
            Some(_) => r is Ok,
            None => r matches Err(e) && (*e.kind matches DockerErrorKind::InvalidParams {
                param,
                reason,
            } && param@ == "compose_config"@ && reason@ == "No services defined in compose file"@),
        },
{
    match get(config, "services") {
        Some(_) => Ok(()),
        None => Err(
            DockerError::invalid_params("compose_config", "No services defined in compose file"),
        ),
    }
}

// ---------------------------------------------------------------------------
// Networks and volumes.

/// `o`, or `d` when it is absent.
pub open spec fn or_default(o: Option<Seq<char>>, d: Seq<char>) -> Seq<char> {
    match o {
        Some(s) => s,
        None => d,
    }
}

/// `o`, or `false` when it is absent.
pub open spec fn or_false(o: Option<bool>) -> bool {
    match o {
        Some(b) => b,
        None => false,
    }
}

/// The subnet that an item of `ipam.config` describes, when it is a mapping.
pub open spec fn subnet_spec(item: Yaml) -> Option<<IpamSubnetConfig as DeepView>::V> {
    match mapping_of(item) {
        Some(m) => Some(
            (
                match lookup(m, "subnet"@) {
                    Some(x) => or_default(str_of(x), ""@),
                    None => ""@,
                },
                match lookup(m, "gateway"@) {
                    Some(x) => str_of(x),
                    None => None,
                },
                match lookup(m, "ip_range"@) {
                    Some(x) => str_of(x),
                    None => None,
                },
            ),
        ),
        None => None,
    }
}

/// The subnets of an `ipam.config` sequence.
pub open spec fn subnets_spec(items: Seq<Yaml>) -> Seq<<IpamSubnetConfig as DeepView>::V>
    decreases items.len(),
{
    if items.len() == 0 {
        seq![]
    } else {
        let rest = subnets_spec(items.drop_last());
        match subnet_spec(items.last()) {
            Some(c) => rest.push(c),
            None => rest,
        }
    }
}

/// The address management settings that an `ipam` value describes.
pub open spec fn ipam_spec(i: Yaml) -> <IpamConfig as DeepView>::V {
    (
        or_default(get_str(i, "driver"@), "default"@),
        match get_seq(i, "config"@) {
            Some(items) => subnets_spec(items),
            None => seq![],
        },
    )
}

/// The network called `name` that the compose value `v` describes.
pub open spec fn network_spec(name: Seq<char>, v: Yaml) -> NetworkView {
    (
        name,
        or_default(get_str(v, "driver"@), "bridge"@),
        opt_pairs(get_map(v, "driver_opts"@)),
        match yaml_get(v, "ipam"@) {
            Some(i) => Some(ipam_spec(i)),
            None => None,
        },
        or_false(get_bool(v, "internal"@)),
        or_false(get_bool(v, "external"@)),
        or_false(get_bool(v, "attachable"@)),
        or_false(get_bool(v, "enable_ipv6"@)),
        opt_pairs(get_map(v, "labels"@)),
    )
}

/// The network a compose document gets when it defines none.
pub open spec fn default_network() -> NetworkView {
    ("default"@, "bridge"@, None, None, false, false, false, false, None)
}

/// The networks a compose document defines, in document order, or the
/// default network alone when it defines none.
pub open spec fn networks_spec(config: Yaml) -> Seq<NetworkView> {
    let found = section(config, "networks"@).map_values(
        |e: (Seq<char>, Yaml)| network_spec(e.0, e.1),
    );
    if found.len() == 0 {
        seq![default_network()]
    } else {
        found
    }
}

/// The subnet that an item of `ipam.config` describes.
fn subnet_from(item: &Yaml) -> (r: Option<IpamSubnetConfig>)
    ensures
        match r {
            Some(c) => subnet_spec(*item) == Some(c.deep_view()),
            None => subnet_spec(*item) is None,
        },
{
    match as_mapping(item) {
        Some(m) => {
            let subnet = match lookup_key(m, "subnet") {
                Some(x) => match as_str(x) {
                    Some(s) => s.clone(),
                    None => "".to_string(),
                },
                None => "".to_string(),
            };
            let gateway = match lookup_key(m, "gateway") {
                Some(x) => match as_str(x) {
                    Some(s) => Some(s.clone()),
                    None => None,
                },
                None => None,
            };
            let ip_range = match lookup_key(m, "ip_range") {
                Some(x) => match as_str(x) {
                    Some(s) => Some(s.clone()),
                    None => None,
                },
                None => None,
            };
            Some(IpamSubnetConfig { subnet, gateway, ip_range })
        },
        None => None,
    }
}

/// The address management settings that an `ipam` value describes.
fn ipam_from(i: &Yaml) -> (c: IpamConfig)
    ensures
        c.deep_view() == ipam_spec(*i),
{
    let driver = match get_string(i, "driver") {
        Some(d) => d,
        None => "default".to_string(),
    };
    let mut config: Vec<IpamSubnetConfig> = Vec::new();
    match get_sequence(i, "config") {
        Some(items) => {
            let mut k: usize = 0;
            while k < items.len()
                invariant
                    k <= items.len(),
                    config.deep_view() == subnets_spec(items@.take(k as int)),
                decreases items.len() - k,
            {
                let ghost before = config.deep_view();
                assert(items@.take(k + 1).drop_last() == items@.take(k as int));
                assert(items@.take(k + 1).last() == items@[k as int]);
                match subnet_from(&items[k]) {
                    Some(c) => {
                        let ghost cv = c.deep_view();
                        config.push(c);
                        assert(config.deep_view() =~= before.push(cv));
                    },
                    None => {},
                }
                k = k + 1;
            }
            assert(items@.take(items.len() as int) == items@);
        },
        None => {
            assert(config.deep_view() =~= Seq::<<IpamSubnetConfig as DeepView>::V>::empty());
        },
    }
    IpamConfig { driver, config }
}

/// `o`, or `false` when it is absent.
fn flag(o: Option<bool>) -> (b: bool)
    ensures
        b == or_false(o),
{
    match o {
        Some(b) => b,
        None => false,
    }
}

/// The network called `name` that the compose value `v` describes.
fn network_from(name: &String, v: &Yaml) -> (c: NetworkConfig)
    ensures
        c.deep_view() == network_spec(name@, *v),
{
    NetworkConfig {
        name: name.clone(),
        driver: match get_string(v, "driver") {
            Some(d) => d,
            None => "bridge".to_string(),
        },
        driver_opts: optional_pairs(get_mapping(v, "driver_opts")),
        ipam: match get(v, "ipam") {
            Some(i) => Some(ipam_from(i)),
            None => None,
        },
        internal: flag(get_boolean(v, "internal")),
        external: flag(get_boolean(v, "external")),
        attachable: flag(get_boolean(v, "attachable")),
        enable_ipv6: flag(get_boolean(v, "enable_ipv6")),
        labels: optional_pairs(get_mapping(v, "labels")),
    }
}

/// Reads the networks of a compose document: one for each string key of
/// its `networks` mapping, with the `bridge` driver, the `default` IPAM
/// driver and every flag off unless set; a document that defines no
/// network gets the `default` bridge network.
pub fn parse_networks(config: &Yaml) -> (networks: Vec<NetworkConfig>)
    ensures
        networks.deep_view() == networks_spec(*config),
{
    let mut networks: Vec<NetworkConfig> = Vec::new();
    let ghost found = section(*config, "networks"@).map_values(
        |e: (Seq<char>, Yaml)| network_spec(e.0, e.1),
    );
    match get_mapping(config, "networks") {
        Some(entries) => {
            let mut i: usize = 0;
            while i < entries.len()
                invariant
                    i <= entries.len(),
                    networks.deep_view() == named_values(entries@.take(i as int)).map_values(
                        |e: (Seq<char>, Yaml)| network_spec(e.0, e.1),
                    ),
                decreases entries.len() - i,
            {
                let ghost before = networks.deep_view();
                assert(entries@.take(i + 1).drop_last() == entries@.take(i as int));
                assert(entries@.take(i + 1).last() == entries@[i as int]);
                match as_str(&entries[i].0) {
                    Some(n) => {
                        let c = network_from(n, &entries[i].1);
                        let ghost cv = c.deep_view();
                        networks.push(c);
                        assert(networks.deep_view() =~= before.push(cv));
                        assert(named_values(entries@.take(i + 1)).map_values(
                            |e: (Seq<char>, Yaml)| network_spec(e.0, e.1),
                        ) =~= before.push(cv));
                    },
                    None => {},
                }
                i = i + 1;
            }
            assert(entries@.take(entries.len() as int) == entries@);
        },
        None => {
            assert(networks.deep_view() =~= found);
        },
    }
    if networks.len() == 0 {
        let c = NetworkConfig {
            name: "default".to_string(),
            driver: "bridge".to_string(),
            driver_opts: None,
            ipam: None,
            internal: false,
            external: false,
            attachable: false,
            enable_ipv6: false,
            labels: None,
        };
        networks.push(c);
        assert(networks.deep_view() =~= seq![default_network()]);
    }
    networks
}

/// The volume called `name` that the compose value `v` describes.
pub open spec fn volume_spec(name: Seq<char>, v: Yaml) -> VolumeView {
    (
        name,
        or_default(get_str(v, "driver"@), "local"@),
        opt_pairs(get_map(v, "driver_opts"@)),
        opt_pairs(get_map(v, "labels"@)),
        or_false(get_bool(v, "external"@)),
        or_false(get_bool(v, "internal"@)),
    )
}

/// Reads the named volumes of a compose document: one for each string key
/// of its `volumes` mapping, with the `local` driver and both flags off
/// unless set.
pub fn parse_volumes(config: &Yaml) -> (volumes: Vec<VolumeConfig>)
    ensures
        volumes.deep_view() == section(*config, "volumes"@).map_values(
            |e: (Seq<char>, Yaml)| volume_spec(e.0, e.1),
        ),
{
    let mut volumes: Vec<VolumeConfig> = Vec::new();
    match get_mapping(config, "volumes") {
        Some(entries) => {
            let mut i: usize = 0;
            while i < entries.len()
                invariant
                    i <= entries.len(),
                    volumes.deep_view() == named_values(entries@.take(i as int)).map_values(
                        |e: (Seq<char>, Yaml)| volume_spec(e.0, e.1),
                    ),
                decreases entries.len() - i,
            {
                let ghost before = volumes.deep_view();
                assert(entries@.take(i + 1).drop_last() == entries@.take(i as int));
                assert(entries@.take(i + 1).last() == entries@[i as int]);
                match as_str(&entries[i].0) {
                    Some(n) => {
                        let v = &entries[i].1;
                        let c = VolumeConfig {
                            name: n.clone(),
                            driver: match get_string(v, "driver") {
                                Some(d) => d,
                                None => "local".to_string(),
                            },
                            driver_opts: optional_pairs(get_mapping(v, "driver_opts")),
                            labels: optional_pairs(get_mapping(v, "labels")),
                            external: flag(get_boolean(v, "external")),
                            internal: flag(get_boolean(v, "internal")),
                        };
                        let ghost cv = c.deep_view();
                        volumes.push(c);
                        assert(volumes.deep_view() =~= before.push(cv));
                        assert(named_values(entries@.take(i + 1)).map_values(
                            |e: (Seq<char>, Yaml)| volume_spec(e.0, e.1),
                        ) =~= before.push(cv));
                    },
                    None => {},
                }
                i = i + 1;
            }
            assert(entries@.take(entries.len() as int) == entries@);
        },
        None => {
            assert(volumes.deep_view() =~= section(*config, "volumes"@).map_values(
                |e: (Seq<char>, Yaml)| volume_spec(e.0, e.1),
            ));
        },
    }
    volumes
}


// ---------------------------------------------------------------------------
// Merging compose documents.

/// `r` is the documents `docs` merged in order, each over the result of
/// merging the ones before it.
pub open spec fn merged_in_order(docs: Seq<Yaml>, r: Yaml) -> bool {
    exists|t: Seq<Yaml>|
        {
            &&& t.len() == docs.len()
            &&& #[trigger] t[0] == docs[0]
            &&& t[docs.len() - 1] == r
            &&& forall|i: int| 0 <= i < docs.len() - 1 ==> #[trigger] merged(t[i], docs[i + 1], t[i + 1])
        }
}

/// Merges compose documents in order, each over the result of the ones
/// before it; fails when there is none.
pub fn merge_documents(docs: Vec<Yaml>) -> (r: Result<Yaml, DockerError>)
    ensures
        docs@.len() == 0 ==> (r matches Err(e) && (*e.kind matches DockerErrorKind::InvalidParams {
            param,
            reason,
        } && param@ == "compose_files"@ && reason@ == "No compose files specified"@)),
        docs@.len() > 0 ==> (r matches Ok(m) && merged_in_order(docs@, m)),
{
    if docs.len() == 0 {
        return Err(DockerError::invalid_params("compose_files", "No compose files specified"));
    }
    let ghost dv = docs@;
    let mut rest = docs;
    let mut acc = rest.remove(0);
    let ghost mut t: Seq<Yaml> = seq![acc];
    let ghost mut i: int = 1;
    assert(rest@ =~= dv.skip(1));
    while rest.len() > 0
        invariant
            1 <= i <= dv.len(),
            rest@ == dv.skip(i),
            t.len() == i,
            t[0] == dv[0],
            t[i - 1] == acc,
            forall|k: int| 0 <= k < i - 1 ==> #[trigger] merged(t[k], dv[k + 1], t[k + 1]),
        decreases rest.len(),
    {
        let next = rest.remove(0);
        assert(next == dv[i]);
        let ghost prev = acc;
        acc = merge_yaml(acc, next);
        let ghost t2 = t.push(acc);
        assert forall|k: int| 0 <= k < i implies #[trigger] merged(t2[k], dv[k + 1], t2[k + 1]) by {
            if k < i - 1 {
                assert(t2[k] == t[k] && t2[k + 1] == t[k + 1]);
            } else {
                assert(t2[k] == prev && t2[k + 1] == acc);
            }
        }
        assert(rest@ =~= dv.skip(i + 1));
        proof {
            t = t2;
            i = i + 1;
        }
    }
    assert(t[0] == dv[0]);
    Ok(acc)
}

} // verus!
