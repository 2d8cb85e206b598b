//! Network configuration: validation of network definitions and the
//! allocation of container addresses on the default bridge subnet.
use vstd::prelude::*;
use crate::errors::{DockerError, DockerErrorKind};
use crate::text::{append_chars, append_str, contains_string, decimal, decimal_chars,
    string_from_chars, str_eq};

verus! {

broadcast use vstd::string::group_string_axioms;

/// A network definition.
#[derive(Debug, Clone)]
pub struct NetworkConfig {
    /// The network's name.
    pub name: String,
    /// The network driver.
    pub driver: String,
    /// Address management settings.
    pub ipam: Option<IpamConfig>,
    /// Driver options, as key-value pairs.
    pub options: Option<Vec<(String, String)>>,
    /// Network aliases.
    pub aliases: Option<Vec<String>>,
    /// Network mode.
    pub network_mode: Option<String>,
    /// Whether IPv6 is enabled.
    pub enable_ipv6: bool,
}

/// Address management settings of a network.
#[derive(Debug, Clone)]
pub struct IpamConfig {
    /// The IPAM driver.
    pub driver: String,
    /// The subnets.
    pub config: Vec<IpamSubnetConfig>,
}

/// One subnet of a network.
#[derive(Debug, Clone)]
pub struct IpamSubnetConfig {
    /// The subnet in CIDR notation.
    pub subnet: String,
    /// The gateway address.
    pub gateway: Option<String>,
    /// The range that addresses are taken from.
    pub ip_range: Option<String>,
}

/// A port forwarded from the host to a container.
#[derive(Debug, Clone)]
pub struct PortMapping {
    /// The port on the host.
    pub host_port: u16,
    /// The port in the container.
    pub container_port: u16,
    /// The host address to listen on; all addresses when absent.
    pub host_address: Option<String>,
}

/// Keeps network definitions in a directory, one JSON file per network.
#[derive(Debug)]
pub struct NetworkConfigManager {
    config_path: String,
}

/// The name of the field that the `i`-th subnet's CIDR is reported under.
pub open spec fn subnet_field(i: nat) -> Seq<char> {
    "ipam.config["@ + decimal(i) + "].subnet"@
}

/// `i` is the position of the first subnet with an empty CIDR.
pub open spec fn is_first_empty_subnet(configs: Seq<IpamSubnetConfig>, i: int) -> bool {
    &&& 0 <= i < configs.len()
    &&& configs[i].subnet@.len() == 0
    &&& forall|j: int| 0 <= j < i ==> configs[j].subnet@.len() != 0
}

/// The position of the first subnet with an empty CIDR, if any.
fn first_empty_subnet(configs: &Vec<IpamSubnetConfig>) -> (r: Option<usize>)
    ensures
        match r {
            Some(i) => is_first_empty_subnet(configs@, i as int) && forall|k: int|
                is_first_empty_subnet(configs@, k) ==> k == i,
            None => !exists|i: int| is_first_empty_subnet(configs@, i),
        },
{
    let mut i: usize = 0;
    while i < configs.len()
        invariant
            i <= configs.len(),
            forall|j: int| 0 <= j < i ==> configs@[j].subnet@.len() != 0,
        decreases configs.len() - i,
    {
        if configs[i].subnet.as_str().is_empty() {
            proof {
                assert forall|k: int| is_first_empty_subnet(configs@, k) implies k == i by {
                    if k < i {
                    } else if k > i {
                        assert(configs@[i as int].subnet@.len() != 0);
                    }
                }
            }
            return Some(i);
        }
        i = i + 1;
    }
    None
}

/// The first problem that validation finds in `config`, as
/// `(parameter, reason)`, or `None` when it is valid: the name, then the
/// driver, then the IPAM driver, then each subnet in order must be non-empty.
pub open spec fn validation_problem(config: NetworkConfig) -> Option<(Seq<char>, Seq<char>)> {
    if config.name@.len() == 0 {
        Some(("name"@, "Network name cannot be empty"@))
    } else if config.driver@.len() == 0 {
        Some(("driver"@, "Network driver cannot be empty"@))
    } else {
        match config.ipam {
            None => None,
            Some(ipam) => if ipam.driver@.len() == 0 {
                Some(("ipam.driver"@, "IPAM driver cannot be empty"@))
            } else if exists|i: int| is_first_empty_subnet(ipam.config@, i) {
                let i = choose|i: int| is_first_empty_subnet(ipam.config@, i);
                Some((subnet_field(i as nat), "Subnet CIDR cannot be empty"@))
            } else {
                None
            },
        }
    }
}

impl NetworkConfigManager {
    /// A manager keeping its files under `config_path`.
    pub fn new(config_path: &str) -> (m: Self)
        ensures
            m.config_path()@ == config_path@,
    {
        NetworkConfigManager { config_path: config_path.to_string() }
    }

    /// The directory of the network files.
    pub closed spec fn config_path(&self) -> String {
        self.config_path
    }

    /// The directory of the network files.
    pub fn get_config_path(&self) -> (r: &String)
        ensures
            r@ == self.config_path()@,
    {
        &self.config_path
    }

    /// Checks a network definition: fails with an invalid-parameters error
    /// naming the first empty field among the name, the driver, the IPAM
    /// driver and the subnets.
    pub fn validate_config(&self, config: &NetworkConfig) -> (r: Result<(), DockerError>)
        ensures
            match validation_problem(*config) {
                None => r is Ok,
                Some((param, reason)) => r matches Err(e) && (*e.kind matches
                    DockerErrorKind::InvalidParams { param: p, reason: q } && p@ == param && q@ == reason),
            },
    {
        if config.name.as_str().is_empty() {
            return Err(DockerError::invalid_params("name", "Network name cannot be empty"));
        }
        if config.driver.as_str().is_empty() {
            return Err(DockerError::invalid_params("driver", "Network driver cannot be empty"));
        }
        match &config.ipam {
            None => Ok(()),
            Some(ipam) => {
                if ipam.driver.as_str().is_empty() {
                    return Err(DockerError::invalid_params("ipam.driver", "IPAM driver cannot be empty"));
                }
                match first_empty_subnet(&ipam.config) {
                    Some(i) => {
                        let mut field: Vec<char> = Vec::new();
                        append_str(&mut field, "ipam.config[");
                        let d = decimal_chars(i as u64);
                        append_chars(&mut field, &d);
                        append_str(&mut field, "].subnet");
                        let f = string_from_chars(&field);
                        return Err(DockerError::invalid_params(f.as_str(), "Subnet CIDR cannot be empty"));
                    },
                    None => {},
                }
                Ok(())
            },
        }
    }
}

/// A network configuration manager keeping its files under `config_path`.
pub fn new_config_manager(config_path: &str) -> (m: NetworkConfigManager)
    ensures
        m.config_path()@ == config_path@,
{
    NetworkConfigManager::new(config_path)
}

// ---------------------------------------------------------------------------
// Address allocation.

/// The `i`-th address of the default bridge subnet, `172.17.0.i`.
pub open spec fn candidate_ip(i: nat) -> Seq<char> {
    "172.17.0."@ + decimal(i)
}

/// `i` is the lowest host number in `2..255` whose address is not in `used`.
pub open spec fn is_lowest_free(used: Set<Seq<char>>, i: nat) -> bool {
    &&& 2 <= i < 255
    &&& !used.contains(candidate_ip(i))
    &&& forall|j: nat| 2 <= j < i ==> used.contains(#[trigger] candidate_ip(j))
}

/// Every address `172.17.0.2` to `172.17.0.254` is in `used`.
pub open spec fn all_taken(used: Set<Seq<char>>) -> bool {
    forall|j: nat| 2 <= j < 255 ==> used.contains(#[trigger] candidate_ip(j))
}

/// The set of the views of `v`.
pub open spec fn string_set(v: Seq<String>) -> Set<Seq<char>> {
    Set::new(|s: Seq<char>| exists|i: int| 0 <= i < v.len() && #[trigger] v[i]@ == s)
}

/// Adding an element to a sequence of strings adds its view to their set.
pub proof fn lemma_string_set_push(v: Seq<String>, x: String)
    ensures
        string_set(v.push(x)) == string_set(v).insert(x@),
{
    let w = v.push(x);
    assert forall|s: Seq<char>| #[trigger] string_set(w).contains(s) == string_set(v).insert(x@).contains(s) by {
        if string_set(v).contains(s) {
            let k = choose|k: int| 0 <= k < v.len() && #[trigger] v[k]@ == s;
            assert(w[k] == v[k]);
        }
        if s == x@ {
            assert(w[v.len() as int]@ == s);
        }
        if string_set(w).contains(s) {
            let k = choose|k: int| 0 <= k < w.len() && #[trigger] w[k]@ == s;
            if k < v.len() {
                assert(w[k] == v[k]);
            }
        }
    }
    assert(string_set(w) =~= string_set(v).insert(x@));
}

/// Hands out addresses of the default bridge subnet and remembers which are
/// in use; the gateway counts as in use from the start.
#[derive(Debug)]
pub struct IpManager {
    subnet: String,
    gateway: String,
    used_ips: Vec<String>,
}

impl DeepView for IpManager {
    type V = Set<Seq<char>>;

    /// The addresses in use.
    open spec fn deep_view(&self) -> Set<Seq<char>> {
        self.used()
    }
}

impl IpManager {
    /// The addresses in use.
    pub closed spec fn used(&self) -> Set<Seq<char>> {
        string_set(self.used_ips@)
    }

    /// The subnet the manager was made for.
    pub closed spec fn subnet_spec(&self) -> Seq<char> {
        self.subnet@
    }

    /// The gateway the manager was made with.
    pub closed spec fn gateway_spec(&self) -> Seq<char> {
        self.gateway@
    }

    /// A manager for `subnet` in which only `gateway` is in use.
    pub fn new(subnet: &str, gateway: &str) -> (m: Self)
        ensures
            m.used() == Set::<Seq<char>>::empty().insert(gateway@),
            m.subnet_spec() == subnet@,
            m.gateway_spec() == gateway@,
    {
        let mut used_ips: Vec<String> = Vec::new();
        used_ips.push(gateway.to_string());
        let m = IpManager { subnet: subnet.to_string(), gateway: gateway.to_string(), used_ips };
        assert(m.used() =~= Set::<Seq<char>>::empty().insert(gateway@)) by {
            assert(m.used_ips@[0]@ == gateway@);
        }
        m
    }

    /// Takes the lowest free address among `172.17.0.2` to `172.17.0.254`
    /// and marks it as used; fails with a network error when all are taken.
    pub fn allocate_ip(&mut self) -> (r: Result<String, DockerError>)
        ensures
            final(self).subnet_spec() == old(self).subnet_spec(),
            final(self).gateway_spec() == old(self).gateway_spec(),
            match r {
                Ok(ip) => {
                    &&& exists|i: nat| is_lowest_free(old(self).used(), i) && ip@ == candidate_ip(i)
                    &&& final(self).used() == old(self).used().insert(ip@)
                },
                Err(e) => {
                    &&& all_taken(old(self).used())
                    &&& final(self).used() == old(self).used()
                    &&& *e.kind matches DockerErrorKind::NetworkError { reason } && reason@
                        == "No available IP addresses"@
                },
            },
    {
        let mut i: u64 = 2;
        while i < 255
            invariant
                2 <= i <= 255,
                *self == *old(self),
                forall|j: nat| 2 <= j < i ==> self.used().contains(#[trigger] candidate_ip(j)),
            decreases 255 - i,
        {
            let mut ipv: Vec<char> = Vec::new();
            append_str(&mut ipv, "172.17.0.");
            let d = decimal_chars(i);
            append_chars(&mut ipv, &d);
            let ip = string_from_chars(&ipv);
            assert(ip@ == candidate_ip(i as nat));
            if !contains_string(&self.used_ips, ip.as_str()) {
                let ghost before = self.used();
                assert(!before.contains(ip@));
                self.used_ips.push(ip.clone());
                proof {
                    assert(is_lowest_free(before, i as nat));
                    assert forall|s: Seq<char>| #[trigger] self.used().contains(s) == before.insert(ip@).contains(s) by {
                        if before.contains(s) {
                            let k = choose|k: int| 0 <= k < old(self).used_ips@.len() && #[trigger] old(self).used_ips@[k]@ == s;
                            assert(self.used_ips@[k] == old(self).used_ips@[k]);
                        }
                        if s == ip@ {
                            assert(self.used_ips@[self.used_ips@.len() - 1]@ == ip@);
                        }
                        if self.used().contains(s) {
                            let k = choose|k: int| 0 <= k < self.used_ips@.len() && #[trigger] self.used_ips@[k]@ == s;
                            if k < old(self).used_ips@.len() {
                                assert(self.used_ips@[k] == old(self).used_ips@[k]);
                            }
                        }
                    }
                    assert(self.used() =~= before.insert(ip@));
                }
                return Ok(ip);
            }
            i = i + 1;
        }
        Err(DockerError::network_error("No available IP addresses"))
    }

    /// Marks `ip` as free again.
    pub fn release_ip(&mut self, ip: &str)
        ensures
            final(self).used() == old(self).used().remove(ip@),
            final(self).subnet_spec() == old(self).subnet_spec(),
            final(self).gateway_spec() == old(self).gateway_spec(),
    {
        let mut kept: Vec<String> = Vec::new();
        let mut i: usize = 0;
        proof {
            assert(string_set(kept@) =~= string_set(self.used_ips@.take(0)).remove(ip@));
        }
        while i < self.used_ips.len()
            invariant
                i <= self.used_ips.len(),
                string_set(kept@) == string_set(self.used_ips@.take(i as int)).remove(ip@),
            decreases self.used_ips.len() - i,
        {
            let ghost prefix = self.used_ips@.take(i as int);
            let ghost before = kept@;
            let ghost x = self.used_ips@[i as int];
            proof {
                assert(self.used_ips@.take(i + 1) == prefix.push(x));
                lemma_string_set_push(prefix, x);
            }
            if !str_eq(self.used_ips[i].as_str(), ip) {
                kept.push(self.used_ips[i].clone());
                proof {
                    lemma_string_set_push(before, x);
                    assert(kept@ == before.push(x));
                    assert(string_set(kept@) =~= string_set(prefix.push(x)).remove(ip@));
                }
            } else {
                assert(string_set(kept@) =~= string_set(prefix.push(x)).remove(ip@));
            }
            i = i + 1;
        }
        assert(self.used_ips@.take(self.used_ips@.len() as int) == self.used_ips@);
        self.used_ips = kept;
    }
}

/// Two allocations in a row hand out different addresses, the second with
/// a higher host number.
pub proof fn law_allocations_differ(used: Set<Seq<char>>, i: nat, j: nat)
    requires
        is_lowest_free(used, i),
        is_lowest_free(used.insert(candidate_ip(i)), j),
    ensures
        candidate_ip(i) != candidate_ip(j),
        i < j,
{
    if j < i {
        assert(used.contains(candidate_ip(j)));
    }
}

/// Releasing the address just allocated gives back the addresses in use
/// before, so the next allocation hands it out again.
pub proof fn law_release_undoes_allocate(used: Set<Seq<char>>, i: nat)
    requires
        is_lowest_free(used, i),
    ensures
        used.insert(candidate_ip(i)).remove(candidate_ip(i)) == used,
        is_lowest_free(used.insert(candidate_ip(i)).remove(candidate_ip(i)), i),
{
    assert(used.insert(candidate_ip(i)).remove(candidate_ip(i)) =~= used);
}

/// An address in use (such as the gateway) is never handed out.
pub proof fn law_used_address_not_allocated(used: Set<Seq<char>>, ip: Seq<char>, i: nat)
    requires
        used.contains(ip),
        is_lowest_free(used, i),
    ensures
        candidate_ip(i) != ip,
{
}

} // verus!
