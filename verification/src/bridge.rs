//! The bridge network driver: its table of networks, with the addresses in
//! use on each, and the shell commands that set up bridges, container links
//! and port forwarding on Linux (run by the caller, in the order given).
use vstd::prelude::*;
use crate::errors::{DockerError, DockerErrorKind};
use crate::image::{hex_digit, hex_digit_of};
use crate::network::{IpManager, NetworkConfig, PortMapping};
use crate::runtime::{assoc_find, has_key, key_at, law_assoc_read_after_write, law_assoc_remove_after_insert, lemma_has_key_first};
use crate::text::{append_chars, append_str, chars_of, contains_chars, contains_spec, decimal,
    decimal_chars, string_from_chars};
use crate::yaml::{assoc_delete, assoc_insert, assoc_put, assoc_remove};

verus! {

broadcast use vstd::string::group_string_axioms;

// ---------------------------------------------------------------------------
// Identifiers.

/// The lowercase hexadecimal form of `n`, without leading zeros.
pub open spec fn hex_u64(n: nat) -> Seq<char>
    decreases n,
{
    if n < 16 {
        seq![hex_digit(n)]
    } else {
        hex_u64(n / 16).push(hex_digit(n % 16))
    }
}

/// The lowercase hexadecimal form of a 64-bit number.
pub open spec fn hex_of(b: u64) -> Seq<char> {
    hex_u64(b as nat)
}

/// The two lowercase hexadecimal digits of a byte.
pub open spec fn hex_byte(b: u8) -> Seq<char> {
    seq![hex_digit((b / 16) as nat), hex_digit((b % 16) as nat)]
}

/// The lowercase hexadecimal form of `n`.
pub(crate) fn hex_chars(n: u64) -> (r: Vec<char>)
    ensures
        r@ == hex_u64(n as nat),
    decreases n,
{
    if n < 16 {
        let mut v: Vec<char> = Vec::new();
        v.push(hex_digit_of(n as u8));
        assert(v@ == seq![hex_digit(n as nat)]);
        v
    } else {
        let mut v = hex_chars(n / 16);
        v.push(hex_digit_of((n % 16) as u8));
        v
    }
}

/// A random 64-bit number (rand's `random::<u64>()`).
#[verifier::external_body]
fn random_u64() -> u64 {
    rand::random::<u64>()
}

/// A random byte (rand's `random::<u8>()`).
#[verifier::external_body]
fn random_u8() -> u8 {
    rand::random::<u8>()
}

/// A new network id: a random 64-bit number in lowercase hexadecimal.
pub fn new_network_id() -> (r: String)
    ensures
        exists|b: u64| r@ == #[trigger] hex_of(b),
{
    let b = random_u64();
    let v = hex_chars(b);
    assert(v@ == hex_of(b));
    string_from_chars(&v)
}

/// A MAC address in the locally administered range `02:42:..`.
pub open spec fn mac_of(a: u8, b: u8, c: u8, d: u8) -> Seq<char> {
    "02:42:"@ + hex_byte(a) + ":"@ + hex_byte(b) + ":"@ + hex_byte(c) + ":"@ + hex_byte(d)
}

/// The MAC address `02:42:..` with the bytes `a`, `b`, `cc`, `d`.
fn mac_chars(a: u8, b: u8, cc: u8, d: u8) -> (mac: Vec<char>)
    ensures
        mac@ == mac_of(a, b, cc, d),
{
    let mut mac = chars_of("02:42:");
    let bytes = [a, b, cc, d];
    let mut j: usize = 0;
    while j < 4
        invariant
            j <= 4,
            bytes@ == seq![a, b, cc, d],
            mac@ == "02:42:"@ + (if j >= 1 { hex_byte(a) } else { seq![] }) + (if j >= 2 {
                ":"@ + hex_byte(b)
            } else {
                seq![]
            }) + (if j >= 3 { ":"@ + hex_byte(cc) } else { seq![] }) + (if j >= 4 {
                ":"@ + hex_byte(d)
            } else {
                seq![]
            }),
        decreases 4 - j,
    {
        let ghost m0 = mac@;
        let x = bytes[j];
        if j > 0 {
            mac.push(':');
        }
        mac.push(hex_digit_of(x / 16));
        mac.push(hex_digit_of(x % 16));
        proof {
            reveal_strlit(":");
            if j == 0 {
                assert(mac@ =~= m0 + hex_byte(a));
            } else {
                assert(mac@ =~= m0 + (":"@ + hex_byte(x)));
            }
        }
        j = j + 1;
    }
    assert(mac@ =~= mac_of(a, b, cc, d));
    mac
}

/// The record of the container `container_id` attached with the address
/// `ip`, under the endpoint id drawn as `e` and the MAC address drawn as
/// `a`, `b`, `c`, `d`.
pub open spec fn attachment(container_id: Seq<char>, ip: Seq<char>, e: u64, a: u8, b: u8, c: u8, d: u8) -> (
    Seq<char>,
    Seq<char>,
    Seq<char>,
    Seq<char>,
    Seq<char>,
) {
    (container_id, hex_of(e), mac_of(a, b, c, d), ip, Seq::<char>::empty())
}

/// The number of bytes of the UTF-8 form of `s`.
pub open spec fn utf8_size(s: Seq<char>) -> nat {
    vstd::utf8::encode_utf8(s).len()
}

/// The first `n` bytes of the UTF-8 form of `s` end on a character
/// boundary (so that Rust's `&s[0..n]` is defined).
pub open spec fn utf8_cut(s: Seq<char>, n: nat) -> bool {
    exists|k: int| 0 <= k <= s.len() && #[trigger] utf8_size(s.take(k)) == n
}

/// The characters that make up the first `n` bytes of the UTF-8 form of
/// `s` (Rust's `&s[0..n]`), where `utf8_cut(s, n)`.
pub open spec fn byte_prefix(s: Seq<char>, n: nat) -> Seq<char> {
    s.take(choose|k: int| 0 <= k <= s.len() && #[trigger] utf8_size(s.take(k)) == n)
}

/// The UTF-8 form of a concatenation is the concatenation of the forms.
proof fn lemma_encode_concat(a: Seq<char>, b: Seq<char>)
    ensures
        vstd::utf8::encode_utf8(a + b) == vstd::utf8::encode_utf8(a) + vstd::utf8::encode_utf8(b),
    decreases a.len(),
{
    if a.len() == 0 {
        assert(a + b =~= b);
        assert(vstd::utf8::encode_utf8(a) =~= Seq::<u8>::empty());
        assert(vstd::utf8::encode_utf8(a) + vstd::utf8::encode_utf8(b) =~= vstd::utf8::encode_utf8(b));
    } else {
        assert((a + b).drop_first() =~= a.drop_first() + b);
        assert((a + b)[0] == a[0]);
        lemma_encode_concat(a.drop_first(), b);
        assert(vstd::utf8::encode_utf8(a + b) =~= vstd::utf8::encode_utf8(a) + vstd::utf8::encode_utf8(b));
    }
}

/// One more character adds its own UTF-8 width, which is at least one.
proof fn lemma_utf8_size_step(s: Seq<char>, k: int)
    requires
        0 <= k < s.len(),
    ensures
        utf8_size(s.take(k + 1)) == utf8_size(s.take(k)) + vstd::utf8::encode_scalar(s[k] as u32).len(),
        vstd::utf8::encode_scalar(s[k] as u32).len() >= 1,
{
    assert(s.take(k + 1) =~= s.take(k) + seq![s[k]]);
    lemma_encode_concat(s.take(k), seq![s[k]]);
    assert(seq![s[k]].drop_first() =~= Seq::<char>::empty());
    assert(vstd::utf8::encode_utf8(Seq::<char>::empty()) =~= Seq::<u8>::empty());
    assert(vstd::utf8::encode_utf8(seq![s[k]]) =~= vstd::utf8::encode_scalar(s[k] as u32));
}

/// The byte size of a prefix grows strictly with its length.
proof fn lemma_utf8_size_strict(s: Seq<char>, i: int, j: int)
    requires
        0 <= i < j <= s.len(),
    ensures
        utf8_size(s.take(i)) < utf8_size(s.take(j)),
    decreases j - i,
{
    lemma_utf8_size_step(s, j - 1);
    if i < j - 1 {
        lemma_utf8_size_strict(s, i, j - 1);
    }
}

/// The number of bytes of the UTF-8 form of `c`.
fn utf8_width(c: char) -> (w: usize)
    ensures
        w == vstd::utf8::encode_scalar(c as u32).len(),
{
    let u = c as u32;
    proof {
        vstd::utf8::char_is_scalar(c);
    }
    if u <= 0x7F {
        1
    } else if u <= 0x7FF {
        2
    } else if u <= 0xFFFF {
        3
    } else {
        4
    }
}

/// The characters that make up the first `n` bytes of the UTF-8 form of
/// `s`.
fn byte_prefix_of(s: &str, n: usize) -> (r: Vec<char>)
    requires
        utf8_cut(s@, n as nat),
    ensures
        r@ == byte_prefix(s@, n as nat),
{
    let v = chars_of(s);
    let ghost k = choose|k: int| 0 <= k <= s@.len() && #[trigger] utf8_size(s@.take(k)) == n;
    let mut r: Vec<char> = Vec::new();
    let mut i: usize = 0;
    let mut b: usize = 0;
    assert(s@.take(0) =~= Seq::<char>::empty());
    assert(vstd::utf8::encode_utf8(Seq::<char>::empty()) =~= Seq::<u8>::empty());
    while b < n
        invariant
            v@ == s@,
            0 <= k <= s@.len(),
            utf8_size(s@.take(k)) == n,
            i <= k,
            b == utf8_size(s@.take(i as int)),
            b <= n,
            r@ == s@.take(i as int),
        decreases k - i,
    {
        proof {
            if i == k {
                assert(false);
            }
            lemma_utf8_size_step(s@, i as int);
            if i + 1 < k {
                lemma_utf8_size_strict(s@, i + 1, k);
            }
        }
        assert(i < v.len());
        let w = utf8_width(v[i]);
        b = b + w;
        r.push(v[i]);
        assert(s@.take(i + 1) =~= s@.take(i as int).push(s@[i as int]));
        i = i + 1;
    }
    proof {
        if i < k {
            lemma_utf8_size_strict(s@, i as int, k);
        }
    }
    assert(i == k);
    r
}

// ---------------------------------------------------------------------------
// Commands.

/// The bridge of the network `network_id`: `br-` and the id's first eight
/// bytes.
pub open spec fn bridge_of(network_id: Seq<char>) -> Seq<char> {
    "br-"@ + byte_prefix(network_id, 8)
}

/// The name of the bridge of the network `network_id`.
pub fn bridge_name(network_id: &str) -> (r: String)
    requires
        utf8_cut(network_id@, 8),
    ensures
        r@ == bridge_of(network_id@),
{
    let mut v = chars_of("br-");
    let p = byte_prefix_of(network_id, 8);
    append_chars(&mut v, &p);
    string_from_chars(&v)
}

/// The command whose output lists the bridge `bridge_name` when it exists.
pub fn bridge_check_command(bridge_name: &str) -> (r: String)
    ensures
        r@ == "ip link show "@ + bridge_name@ + " || true"@,
{
    let mut v = chars_of("ip link show ");
    append_str(&mut v, bridge_name);
    append_str(&mut v, " || true");
    string_from_chars(&v)
}

/// The commands that create the bridge `bridge_name` and bring it up;
/// none when `listing` (the output of the check command) names it.
pub fn create_bridge(bridge_name: &str, listing: &str) -> (r: Vec<String>)
    ensures
        contains_spec(listing@, bridge_name@) ==> r.deep_view() == Seq::<Seq<char>>::empty(),
        !contains_spec(listing@, bridge_name@) ==> r.deep_view() == seq![
            "ip link add "@ + bridge_name@ + " type bridge"@,
            "ip link set "@ + bridge_name@ + " up"@,
        ],
{
    let mut r: Vec<String> = Vec::new();
    let l = chars_of(listing);
    let b = chars_of(bridge_name);
    if contains_chars(&l, &b) {
        assert(r.deep_view() =~= Seq::<Seq<char>>::empty());
        return r;
    }
    let mut add = chars_of("ip link add ");
    append_str(&mut add, bridge_name);
    append_str(&mut add, " type bridge");
    r.push(string_from_chars(&add));
    let mut up = chars_of("ip link set ");
    append_str(&mut up, bridge_name);
    append_str(&mut up, " up");
    r.push(string_from_chars(&up));
    assert(r.deep_view() =~= seq![
        "ip link add "@ + bridge_name@ + " type bridge"@,
        "ip link set "@ + bridge_name@ + " up"@,
    ]);
    r
}

/// The command that deletes the bridge `bridge_name`.
pub fn delete_bridge(bridge_name: &str) -> (r: String)
    ensures
        r@ == "ip link delete "@ + bridge_name@,
{
    let mut v = chars_of("ip link delete ");
    append_str(&mut v, bridge_name);
    string_from_chars(&v)
}

/// The command that gives the bridge `bridge_name` the address `ip` in a
/// /24 subnet.
pub fn configure_bridge_ip(bridge_name: &str, ip: &str) -> (r: String)
    ensures
        r@ == "ip addr add "@ + ip@ + "/24 dev "@ + bridge_name@,
{
    let mut v = chars_of("ip addr add ");
    append_str(&mut v, ip);
    append_str(&mut v, "/24 dev ");
    append_str(&mut v, bridge_name);
    string_from_chars(&v)
}

/// The command that creates the pair of linked interfaces `veth1`, `veth2`.
pub fn create_veth_pair(veth1: &str, veth2: &str) -> (r: String)
    ensures
        r@ == "ip link add "@ + veth1@ + " type veth peer name "@ + veth2@,
{
    let mut v = chars_of("ip link add ");
    append_str(&mut v, veth1);
    append_str(&mut v, " type veth peer name ");
    append_str(&mut v, veth2);
    string_from_chars(&v)
}

/// The commands that bring `veth` up and attach it to `bridge`.
pub open spec fn veth_to_bridge(veth: Seq<char>, bridge: Seq<char>) -> Seq<Seq<char>> {
    seq!["ip link set "@ + veth + " up"@, "ip link set "@ + veth + " master "@ + bridge]
}

/// The commands that bring `veth` up and attach it to `bridge`.
pub fn connect_veth_to_bridge(veth: &str, bridge: &str) -> (r: Vec<String>)
    ensures
        r.deep_view() == veth_to_bridge(veth@, bridge@),
{
    let mut r: Vec<String> = Vec::new();
    let mut up = chars_of("ip link set ");
    append_str(&mut up, veth);
    append_str(&mut up, " up");
    r.push(string_from_chars(&up));
    let mut master = chars_of("ip link set ");
    append_str(&mut master, veth);
    append_str(&mut master, " master ");
    append_str(&mut master, bridge);
    r.push(string_from_chars(&master));
    assert(r.deep_view() =~= veth_to_bridge(veth@, bridge@));
    r
}

/// The commands that give the container `container_id` its own network
/// namespace, move `veth` into it and configure it there with the address
/// `ip` and the default route through `172.17.0.1`.
pub open spec fn container_network(veth: Seq<char>, container_id: Seq<char>, ip: Seq<char>) -> Seq<
    Seq<char>,
> {
    let ns = "ip netns exec "@ + container_id;
    seq![
        "mkdir -p /var/run/netns && touch /var/run/netns/"@ + container_id,
        "ip link set "@ + veth + " netns "@ + container_id,
        ns + " ip link set "@ + veth + " up && "@ + ns + " ip addr add "@ + ip + "/24 dev "@ + veth
            + " && "@ + ns + " ip route add default via 172.17.0.1"@,
    ]
}

/// The commands that set up the network of the container `container_id`.
pub fn configure_container_network(veth: &str, container_id: &str, ip: &str) -> (r: Vec<String>)
    ensures
        r.deep_view() == container_network(veth@, container_id@, ip@),
{
    let mut r: Vec<String> = Vec::new();
    let mut mk = chars_of("mkdir -p /var/run/netns && touch /var/run/netns/");
    append_str(&mut mk, container_id);
    r.push(string_from_chars(&mk));
    let mut mv = chars_of("ip link set ");
    append_str(&mut mv, veth);
    append_str(&mut mv, " netns ");
    append_str(&mut mv, container_id);
    r.push(string_from_chars(&mv));
    let mut ns = chars_of("ip netns exec ");
    append_str(&mut ns, container_id);
    let mut c = ns.clone();
    append_str(&mut c, " ip link set ");
    append_str(&mut c, veth);
    append_str(&mut c, " up && ");
    append_chars(&mut c, &ns);
    append_str(&mut c, " ip addr add ");
    append_str(&mut c, ip);
    append_str(&mut c, "/24 dev ");
    append_str(&mut c, veth);
    append_str(&mut c, " && ");
    append_chars(&mut c, &ns);
    append_str(&mut c, " ip route add default via 172.17.0.1");
    r.push(string_from_chars(&c));
    assert(r.deep_view() =~= container_network(veth@, container_id@, ip@));
    r
}

/// The host address of a port mapping: all addresses when none is given.
pub open spec fn host_of(pm: PortMapping) -> Seq<char> {
    match pm.host_address {
        Some(a) => a@,
        None => "0.0.0.0"@,
    }
}

/// The rules that forward `host_port` on the host to the container at `ip`
/// and masquerade the container's replies.
pub open spec fn forward_rules(ip: Seq<char>, pm: PortMapping) -> Seq<Seq<char>> {
    seq![
        "iptables -t nat -A PREROUTING -p tcp -d "@ + host_of(pm) + " --dport "@ + decimal(
            pm.host_port as nat,
        ) + " -j DNAT --to-destination "@ + ip + ":"@ + decimal(pm.container_port as nat),
        "iptables -t nat -A POSTROUTING -p tcp -s "@ + ip + " --sport "@ + decimal(
            pm.container_port as nat,
        ) + " -j MASQUERADE"@,
    ]
}

/// The rules that delete what `forward_rules` added for the same ports.
pub open spec fn unforward_rules(pm: PortMapping) -> Seq<Seq<char>> {
    seq![
        "iptables -t nat -D PREROUTING -p tcp --dport "@ + decimal(pm.host_port as nat)
            + " -j DNAT"@,
        "iptables -t nat -D POSTROUTING -p tcp --sport "@ + decimal(pm.container_port as nat)
            + " -j MASQUERADE"@,
    ]
}

// ---------------------------------------------------------------------------
// The table of networks.

/// A container attached to a network.
#[derive(Debug)]
pub struct ContainerInfo {
    pub name: String,
    pub endpoint_id: String,
    pub mac_address: String,
    pub ipv4_address: String,
    pub ipv6_address: String,
}

/// The view of an attached container.
pub type ContainerInfoView = (Seq<char>, Seq<char>, Seq<char>, Seq<char>, Seq<char>);

impl DeepView for ContainerInfo {
    type V = ContainerInfoView;

    open spec fn deep_view(&self) -> ContainerInfoView {
        (self.name@, self.endpoint_id@, self.mac_address@, self.ipv4_address@, self.ipv6_address@)
    }
}

/// A network of the driver.
#[derive(Debug)]
pub struct NetworkInfo {
    pub id: String,
    pub name: String,
    pub driver: String,
    pub scope: String,
    pub enable_ipv6: bool,
    pub internal: bool,
    pub attachable: bool,
    pub ingress: bool,
    /// The attached containers, by container id.
    pub containers: Vec<(String, ContainerInfo)>,
    pub options: Vec<(String, String)>,
    pub labels: Vec<(String, String)>,
}

/// The view of a network.
pub type NetworkInfoView = (
    Seq<char>,
    Seq<char>,
    Seq<char>,
    Seq<char>,
    bool,
    bool,
    bool,
    bool,
    Seq<(Seq<char>, ContainerInfoView)>,
    Seq<(Seq<char>, Seq<char>)>,
    Seq<(Seq<char>, Seq<char>)>,
);

impl DeepView for NetworkInfo {
    type V = NetworkInfoView;

    open spec fn deep_view(&self) -> NetworkInfoView {
        (
            self.id@,
            self.name@,
            self.driver@,
            self.scope@,
            self.enable_ipv6,
            self.internal,
            self.attachable,
            self.ingress,
            self.containers.deep_view(),
            self.options.deep_view(),
            self.labels.deep_view(),
        )
    }
}

/// A network with other attached containers.
pub open spec fn with_containers(n: NetworkInfoView, cs: Seq<(Seq<char>, ContainerInfoView)>) -> NetworkInfoView {
    (n.0, n.1, n.2, n.3, n.4, n.5, n.6, n.7, cs, n.9, n.10)
}

/// The gateway of a new network: that of its first subnet, else
/// `172.17.0.1`.
pub open spec fn gateway_of(config: NetworkConfig) -> Seq<char> {
    match config.ipam {
        Some(ipam) => if ipam.config.len() > 0 && ipam.config[0].gateway is Some {
            ipam.config[0].gateway->0@
        } else {
            "172.17.0.1"@
        },
        None => "172.17.0.1"@,
    }
}

/// The subnet of a new network: its first subnet, else `172.17.0.0/24`.
pub open spec fn subnet_of(config: NetworkConfig) -> Seq<char> {
    match config.ipam {
        Some(ipam) => if ipam.config.len() > 0 {
            ipam.config[0].subnet@
        } else {
            "172.17.0.0/24"@
        },
        None => "172.17.0.0/24"@,
    }
}

/// The view of the network `id` made from `config`: local, attachable,
/// with no container and no label, and the configuration's options.
pub open spec fn new_network_view(id: Seq<char>, config: NetworkConfig) -> NetworkInfoView {
    (
        id,
        config.name@,
        config.driver@,
        "local"@,
        config.enable_ipv6,
        false,
        true,
        false,
        seq![],
        match config.options {
            Some(o) => o.deep_view(),
            None => seq![],
        },
        seq![],
    )
}

/// The gateway of a new network.
pub fn network_gateway(config: &NetworkConfig) -> (r: String)
    ensures
        r@ == gateway_of(*config),
{
    match &config.ipam {
        Some(ipam) => if ipam.config.len() > 0 {
            match &ipam.config[0].gateway {
                Some(g) => g.clone(),
                None => "172.17.0.1".to_string(),
            }
        } else {
            "172.17.0.1".to_string()
        },
        None => "172.17.0.1".to_string(),
    }
}

/// The subnet of a new network.
pub fn network_subnet(config: &NetworkConfig) -> (r: String)
    ensures
        r@ == subnet_of(*config),
{
    match &config.ipam {
        Some(ipam) => if ipam.config.len() > 0 {
            ipam.config[0].subnet.clone()
        } else {
            "172.17.0.0/24".to_string()
        },
        None => "172.17.0.0/24".to_string(),
    }
}

/// A copy of a list of string pairs.
pub(crate) fn copy_pairs(v: &Vec<(String, String)>) -> (r: Vec<(String, String)>)
    ensures
        r.deep_view() == v.deep_view(),
{
    let mut r: Vec<(String, String)> = Vec::new();
    let mut i: usize = 0;
    while i < v.len()
        invariant
            i <= v.len(),
            r.deep_view() == v.deep_view().take(i as int),
        decreases v.len() - i,
    {
        let ghost before = r.deep_view();
        r.push((v[i].0.clone(), v[i].1.clone()));
        assert(r.deep_view() =~= before.push(v.deep_view()[i as int]));
        assert(v.deep_view().take(i + 1) =~= v.deep_view().take(i as int).push(v.deep_view()[i as int]));
        i = i + 1;
    }
    assert(v.deep_view().take(v.len() as int) =~= v.deep_view());
    r
}

/// A copy of an attached container.
fn copy_container_info(c: &ContainerInfo) -> (r: ContainerInfo)
    ensures
        r.deep_view() == c.deep_view(),
{
    ContainerInfo {
        name: c.name.clone(),
        endpoint_id: c.endpoint_id.clone(),
        mac_address: c.mac_address.clone(),
        ipv4_address: c.ipv4_address.clone(),
        ipv6_address: c.ipv6_address.clone(),
    }
}

/// A copy of a network.
fn copy_network(n: &NetworkInfo) -> (r: NetworkInfo)
    ensures
        r.deep_view() == n.deep_view(),
{
    let mut cs: Vec<(String, ContainerInfo)> = Vec::new();
    let mut i: usize = 0;
    while i < n.containers.len()
        invariant
            i <= n.containers.len(),
            cs.deep_view() == n.containers.deep_view().take(i as int),
        decreases n.containers.len() - i,
    {
        let ghost before = cs.deep_view();
        cs.push((n.containers[i].0.clone(), copy_container_info(&n.containers[i].1)));
        assert(cs.deep_view() =~= before.push(n.containers.deep_view()[i as int]));
        assert(n.containers.deep_view().take(i + 1) =~= n.containers.deep_view().take(i as int).push(
            n.containers.deep_view()[i as int],
        ));
        i = i + 1;
    }
    assert(n.containers.deep_view().take(n.containers.len() as int) =~= n.containers.deep_view());
    NetworkInfo {
        id: n.id.clone(),
        name: n.name.clone(),
        driver: n.driver.clone(),
        scope: n.scope.clone(),
        enable_ipv6: n.enable_ipv6,
        internal: n.internal,
        attachable: n.attachable,
        ingress: n.ingress,
        containers: cs,
        options: copy_pairs(&n.options),
        labels: copy_pairs(&n.labels),
    }
}

/// The text of an optional field, empty when absent.
pub open spec fn text_or_empty(o: Option<Seq<char>>) -> Seq<char> {
    match o {
        Some(t) => t,
        None => seq![],
    }
}

/// The pairs of an optional field, none when absent.
pub open spec fn pairs_or_empty(o: Option<Seq<(Seq<char>, Seq<char>)>>) -> Seq<(Seq<char>, Seq<char>)> {
    match o {
        Some(p) => p,
        None => seq![],
    }
}

/// A network as the Docker engine reports it, its absent fields taken as
/// empty or false, with no container listed.
pub fn network_from_summary(
    id: Option<String>,
    name: Option<String>,
    driver: Option<String>,
    scope: Option<String>,
    enable_ipv6: Option<bool>,
    internal: Option<bool>,
    attachable: Option<bool>,
    ingress: Option<bool>,
    options: Option<Vec<(String, String)>>,
    labels: Option<Vec<(String, String)>>,
) -> (n: NetworkInfo)
    ensures
        n.deep_view() == (
            text_or_empty(id.deep_view()),
            text_or_empty(name.deep_view()),
            text_or_empty(driver.deep_view()),
            text_or_empty(scope.deep_view()),
            enable_ipv6 == Some(true),
            internal == Some(true),
            attachable == Some(true),
            ingress == Some(true),
            Seq::<(Seq<char>, ContainerInfoView)>::empty(),
            pairs_or_empty(options.deep_view()),
            pairs_or_empty(labels.deep_view()),
        ),
{
    let n = NetworkInfo {
        id: match id {
            Some(t) => t,
            None => String::new(),
        },
        name: match name {
            Some(t) => t,
            None => String::new(),
        },
        driver: match driver {
            Some(t) => t,
            None => String::new(),
        },
        scope: match scope {
            Some(t) => t,
            None => String::new(),
        },
        enable_ipv6: match enable_ipv6 {
            Some(b) => b,
            None => false,
        },
        internal: match internal {
            Some(b) => b,
            None => false,
        },
        attachable: match attachable {
            Some(b) => b,
            None => false,
        },
        ingress: match ingress {
            Some(b) => b,
            None => false,
        },
        containers: Vec::new(),
        options: match options {
            Some(o) => o,
            None => Vec::new(),
        },
        labels: match labels {
            Some(o) => o,
            None => Vec::new(),
        },
    };
    assert(n.containers.deep_view() =~= Seq::<(Seq<char>, ContainerInfoView)>::empty());
    assert(n.options.deep_view() =~= pairs_or_empty(options.deep_view()));
    assert(n.labels.deep_view() =~= pairs_or_empty(labels.deep_view()));
    n
}

/// The view of the networks of a driver: by network id, the network and the
/// addresses in use on it.
pub type NetworksView = Seq<(Seq<char>, (NetworkInfoView, Set<Seq<char>>))>;

/// The first eight bytes of every network id of `s` end on a character
/// boundary (as they do in the hexadecimal ids that the driver hands out
/// when they are long enough).
pub open spec fn ids_ok(s: NetworksView) -> bool {
    forall|i: int| 0 <= i < s.len() ==> utf8_cut(#[trigger] s[i].0, 8)
}

/// Adding a binding under an id with an ASCII prefix keeps the ids valid.
proof fn lemma_ids_ok_insert(s: NetworksView, k: Seq<char>, v: (NetworkInfoView, Set<Seq<char>>))
    requires
        ids_ok(s),
        utf8_cut(k, 8),
    ensures
        ids_ok(assoc_insert(s, k, v)),
    decreases s.len(),
{
    if s.len() > 0 && s[0].0 != k {
        lemma_ids_ok_insert(s.drop_first(), k, v);
        let r = assoc_insert(s, k, v);
        assert forall|i: int| 0 <= i < r.len() implies utf8_cut(#[trigger] r[i].0, 8) by {
            if i > 0 {
                assert(r[i] == assoc_insert(s.drop_first(), k, v)[i - 1]);
            }
        }
    } else if s.len() > 0 {
        let r = assoc_insert(s, k, v);
        assert forall|i: int| 0 <= i < r.len() implies utf8_cut(#[trigger] r[i].0, 8) by {
            if i > 0 {
                assert(r[i] == s[i]);
            }
        }
    }
}

/// Removing a binding keeps the ids valid.
proof fn lemma_ids_ok_remove(s: NetworksView, k: Seq<char>)
    requires
        ids_ok(s),
    ensures
        ids_ok(assoc_remove(s, k)),
    decreases s.len(),
{
    if s.len() > 0 && s[0].0 != k {
        lemma_ids_ok_remove(s.drop_first(), k);
        let r = assoc_remove(s, k);
        assert forall|i: int| 0 <= i < r.len() implies utf8_cut(#[trigger] r[i].0, 8) by {
            if i > 0 {
                assert(r[i] == assoc_remove(s.drop_first(), k)[i - 1]);
            }
        }
    } else if s.len() > 0 {
        let r = assoc_remove(s, k);
        assert forall|i: int| 0 <= i < r.len() implies utf8_cut(#[trigger] r[i].0, 8) by {
            assert(r[i] == s[i + 1]);
        }
    }
}

/// The error for a network the driver does not know.
pub open spec fn is_unknown_network(e: DockerError, id: Seq<char>) -> bool {
    *e.kind matches DockerErrorKind::ResourceNotFound { resource_type, identifier }
        && resource_type@ == "network"@ && identifier@ == id
}

/// The interface on the host side of the link of container `container_id`
/// to network `network_id`.
pub open spec fn host_veth(network_id: Seq<char>, container_id: Seq<char>) -> Seq<char> {
    "veth-"@ + byte_prefix(network_id, 6) + "-"@ + byte_prefix(container_id, 6) + "  "@
}

/// The commands that link the container `container_id` with address `ip`
/// to the bridge of network `network_id`.
pub open spec fn link_commands(network_id: Seq<char>, container_id: Seq<char>, ip: Seq<char>) -> Seq<
    Seq<char>,
> {
    let veth = host_veth(network_id, container_id);
    seq!["ip link add "@ + veth + " type veth peer name "@ + "eth0"@]
        + veth_to_bridge(veth, bridge_of(network_id))
        + container_network("eth0"@, container_id, ip)
}

/// Creates bridge networks and links containers to them: keeps the networks
/// by id, each with the addresses in use on it.
#[derive(Debug)]
pub struct BridgeNetworkDriver {
    networks: Vec<(String, (NetworkInfo, IpManager))>,
}

impl BridgeNetworkDriver {
    /// The networks, by id.
    pub closed spec fn networks_view(&self) -> NetworksView {
        self.networks.deep_view()
    }

    /// Every network id starts with eight ASCII characters.
    pub open spec fn wf(&self) -> bool {
        ids_ok(self.networks_view())
    }

    /// A driver with no network.
    pub fn new() -> (d: Self)
        ensures
            d.networks_view() == Seq::<(Seq<char>, (NetworkInfoView, Set<Seq<char>>))>::empty(),
            d.wf(),
    {
        let d = BridgeNetworkDriver { networks: Vec::new() };
        assert(d.networks_view() =~= Seq::<(Seq<char>, (NetworkInfoView, Set<Seq<char>>))>::empty());
        d
    }

    /// Records the network `network_id` made from `config` (its bridge set
    /// up by the caller), replacing a network with the same id; its subnet
    /// and gateway come from the configuration and only the gateway is in
    /// use.
    pub fn create_network(&mut self, network_id: &str, config: &NetworkConfig) -> (r: NetworkInfo)
        requires
            old(self).wf(),
            utf8_cut(network_id@, 8),
        ensures
            final(self).wf(),
            r.deep_view() == new_network_view(network_id@, *config),
            final(self).networks_view() == assoc_insert(
                old(self).networks_view(),
                network_id@,
                (r.deep_view(), Set::<Seq<char>>::empty().insert(gateway_of(*config))),
            ),
    {
        let gateway = network_gateway(config);
        let subnet = network_subnet(config);
        let ips = IpManager::new(subnet.as_str(), gateway.as_str());
        let options = match &config.options {
            Some(o) => copy_pairs(o),
            None => Vec::new(),
        };
        let info = NetworkInfo {
            id: network_id.to_string(),
            name: config.name.clone(),
            driver: config.driver.clone(),
            scope: "local".to_string(),
            enable_ipv6: config.enable_ipv6,
            internal: false,
            attachable: true,
            ingress: false,
            containers: Vec::new(),
            options,
            labels: Vec::new(),
        };
        assert(info.deep_view() =~= new_network_view(network_id@, *config));
        let r = copy_network(&info);
        proof {
            lemma_ids_ok_insert(self.networks_view(), network_id@, (info.deep_view(), ips.deep_view()));
        }
        assoc_put(&mut self.networks, network_id.to_string(), (info, ips));
        r
    }

    /// Prepares linking the container `container_id` to the network
    /// `network_id`: takes the lowest free address of the network and gives
    /// it with the commands that create the link; fails when the network is
    /// unknown or has no free address.
    pub fn connect_container(&mut self, network_id: &str, container_id: &str) -> (r: Result<
        (String, Vec<String>),
        DockerError,
    >)
        requires
            old(self).wf(),
            forall|i: int|
                key_at(old(self).networks_view(), network_id@, i) && !crate::network::all_taken(
                    #[trigger] old(self).networks_view()[i].1.1,
                ) ==> utf8_cut(network_id@, 6) && utf8_cut(container_id@, 6),
        ensures
            final(self).wf(),
            !has_key(old(self).networks_view(), network_id@) ==> (r matches Err(e) && is_unknown_network(
                e,
                network_id@,
            ) && final(self).networks_view() == old(self).networks_view()),
            forall|i: int|
                key_at(old(self).networks_view(), network_id@, i) ==> {
                    let n = old(self).networks_view()[i].1;
                    match r {
                        Ok((ip, cmds)) => {
                            &&& exists|k: nat| crate::network::is_lowest_free(n.1, k) && ip@
                                == crate::network::candidate_ip(k)
                            &&& cmds.deep_view() == link_commands(network_id@, container_id@, ip@)
                            &&& final(self).networks_view() == old(self).networks_view().update(
                                i,
                                (network_id@, (n.0, n.1.insert(ip@))),
                            )
                        },
                        Err(e) => {
                            &&& crate::network::all_taken(n.1)
                            &&& *e.kind matches DockerErrorKind::NetworkError { reason } && reason@
                                == "No available IP addresses"@
                            &&& final(self).networks_view() == old(self).networks_view()
                        },
                    }
                },
    {
        let ghost before = self.networks_view();
        match assoc_find(&self.networks, network_id) {
            None => Err(DockerError::not_found("network", network_id)),
            Some(i) => {
                proof {
                    assert(utf8_cut(before[i as int].0, 8));
                    assert(before[i as int].0 == network_id@);
                }
                let (k, (info, mut ips)) = self.networks.remove(i);
                assert(k@ == network_id@);
                let ghost used0 = ips.deep_view();
                assert(used0 == before[i as int].1.1);
                let a = ips.allocate_ip();
                self.networks.insert(i, (k, (info, ips)));
                assert(self.networks.deep_view() =~= before.update(
                    i as int,
                    (network_id@, (before[i as int].1.0, self.networks.deep_view()[i as int].1.1)),
                ));
                match a {
                    Err(e) => {
                        assert(self.networks.deep_view() =~= before);
                        Err(e)
                    },
                    Ok(ip) => {
                        assert(ids_ok(self.networks_view())) by {
                            assert forall|j: int| 0 <= j < self.networks_view().len() implies utf8_cut(
                                #[trigger] self.networks_view()[j].0,
                                8,
                            ) by {
                                assert(self.networks_view()[j].0 == before[j].0);
                            }
                        }
                        proof {
                            let x = choose|x: nat| crate::network::is_lowest_free(used0, x) && ip@
                                == crate::network::candidate_ip(x);
                            assert(!used0.contains(crate::network::candidate_ip(x)));
                            assert(!crate::network::all_taken(used0));
                            assert(key_at(before, network_id@, i as int));
                        }
                        let nv = byte_prefix_of(network_id, 6);
                        let cv = byte_prefix_of(container_id, 6);
                        let mut vv = chars_of("veth-");
                        append_chars(&mut vv, &nv);
                        append_str(&mut vv, "-");
                        append_chars(&mut vv, &cv);
                        append_str(&mut vv, "  ");
                        let veth = string_from_chars(&vv);
                        assert(veth@ == host_veth(network_id@, container_id@));
                        let bridge = bridge_name(network_id);
                        let mut cmds: Vec<String> = Vec::new();
                        cmds.push(create_veth_pair(veth.as_str(), "eth0"));
                        let link = connect_veth_to_bridge(veth.as_str(), bridge.as_str());
                        let conf = configure_container_network("eth0", container_id, ip.as_str());
                        assert(link@.len() == link.deep_view().len());
                        assert(conf@.len() == conf.deep_view().len());
                        cmds.push(link[0].clone());
                        cmds.push(link[1].clone());
                        cmds.push(conf[0].clone());
                        cmds.push(conf[1].clone());
                        cmds.push(conf[2].clone());
                        assert(cmds.deep_view() =~= link_commands(network_id@, container_id@, ip@));
                        Ok((ip, cmds))
                    },
                }
            },
        }
    }

    /// Records the container `container_id` with the address `ip` as
    /// attached to the network `network_id` (once its link is set up),
    /// under a random endpoint id and MAC address, replacing an earlier
    /// attachment of the same container.
    pub fn attach_container(&mut self, network_id: &str, container_id: &str, ip: &str) -> (r: Result<
        (),
        DockerError,
    >)
        requires
            old(self).wf(),
        ensures
            final(self).wf(),
            !has_key(old(self).networks_view(), network_id@) ==> (r matches Err(e) && is_unknown_network(
                e,
                network_id@,
            ) && final(self).networks_view() == old(self).networks_view()),
            forall|i: int|
                key_at(old(self).networks_view(), network_id@, i) ==> {
                    let n = old(self).networks_view()[i].1;
                    &&& r is Ok
                    &&& exists|e: u64, a: u8, b: u8, c: u8, d: u8|
                        final(self).networks_view() == old(self).networks_view().update(
                            i,
                            (
                                network_id@,
                                (
                                    with_containers(
                                        n.0,
                                        assoc_insert(
                                            n.0.8,
                                            container_id@,
                                            #[trigger] attachment(container_id@, ip@, e, a, b, c, d),
                                        ),
                                    ),
                                    n.1,
                                ),
                            ),
                        )
                },
    {
        let ghost before = self.networks_view();
        match assoc_find(&self.networks, network_id) {
            None => Err(DockerError::not_found("network", network_id)),
            Some(i) => {
                let e = random_u64();
                let a = random_u8();
                let b = random_u8();
                let cc = random_u8();
                let d = random_u8();
                let ev = hex_chars(e);
                let mac = mac_chars(a, b, cc, d);
                let info = ContainerInfo {
                    name: container_id.to_string(),
                    endpoint_id: string_from_chars(&ev),
                    mac_address: string_from_chars(&mac),
                    ipv4_address: ip.to_string(),
                    ipv6_address: String::new(),
                };
                let (k, (mut net, ips)) = self.networks.remove(i);
                let ghost cs0 = net.containers.deep_view();
                assoc_put(&mut net.containers, container_id.to_string(), info);
                let ghost nv = net.deep_view();
                self.networks.insert(i, (k, (net, ips)));
                proof {
                    let c = attachment(container_id@, ip@, e, a, b, cc, d);
                    assert(nv =~= with_containers(before[i as int].1.0, assoc_insert(cs0, container_id@, c)));
                    assert(self.networks.deep_view() =~= before.update(
                        i as int,
                        (network_id@, (with_containers(before[i as int].1.0, assoc_insert(before[i as int].1.0.8, container_id@, c)), before[i as int].1.1)),
                    ));
                    assert(ids_ok(self.networks_view())) by {
                        assert forall|j: int| 0 <= j < self.networks_view().len() implies utf8_cut(
                            #[trigger] self.networks_view()[j].0,
                            8,
                        ) by {
                            assert(self.networks_view()[j].0 == before[j].0);
                        }
                    }
                }
                Ok(())
            },
        }
    }

    /// Detaches the container `container_id` from the network `network_id`,
    /// freeing its address.
    pub fn disconnect_container(&mut self, network_id: &str, container_id: &str) -> (r: Result<
        (),
        DockerError,
    >)
        requires
            old(self).wf(),
        ensures
            final(self).wf(),
            !has_key(old(self).networks_view(), network_id@) ==> (r matches Err(e) && is_unknown_network(
                e,
                network_id@,
            ) && final(self).networks_view() == old(self).networks_view()),
            forall|i: int|
                key_at(old(self).networks_view(), network_id@, i) ==> {
                    let n = old(self).networks_view()[i].1;
                    let cs = n.0.8;
                    &&& r is Ok
                    &&& final(self).networks_view() == old(self).networks_view().update(
                        i,
                        (
                            network_id@,
                            (
                                with_containers(n.0, assoc_remove(cs, container_id@)),
                                if has_key(cs, container_id@) {
                                    n.1.remove(cs[choose|j: int| key_at(cs, container_id@, j)].1.3)
                                } else {
                                    n.1
                                },
                            ),
                        ),
                    )
                },
    {
        let ghost before = self.networks_view();
        match assoc_find(&self.networks, network_id) {
            None => Err(DockerError::not_found("network", network_id)),
            Some(i) => {
                let (k, (mut net, mut ips)) = self.networks.remove(i);
                let ghost cs = net.containers.deep_view();
                let ghost used0 = ips.deep_view();
                match assoc_find(&net.containers, container_id) {
                    Some(j) => {
                        proof {
                            assert forall|x: int| key_at(cs, container_id@, x) implies x == j by {
                                if x < j {
                                    assert(cs[x].0 != container_id@);
                                }
                                if j < x {
                                    assert(cs[j as int].0 == container_id@);
                                }
                            }
                            assert(key_at(cs, container_id@, j as int));
                        }
                        assert(net.containers.deep_view()[j as int].1.3 == net.containers@[j as int].1.ipv4_address@);
                        ips.release_ip(net.containers[j].1.ipv4_address.as_str());
                    },
                    None => {},
                }
                assoc_delete(&mut net.containers, container_id);
                let ghost nv = net.deep_view();
                let ghost uv = ips.deep_view();
                self.networks.insert(i, (k, (net, ips)));
                proof {
                    assert(nv =~= with_containers(before[i as int].1.0, assoc_remove(cs, container_id@)));
                    assert(self.networks.deep_view() =~= before.update(i as int, (network_id@, (nv, uv))));
                    assert(ids_ok(self.networks_view())) by {
                        assert forall|j: int| 0 <= j < self.networks_view().len() implies utf8_cut(
                            #[trigger] self.networks_view()[j].0,
                            8,
                        ) by {
                            assert(self.networks_view()[j].0 == before[j].0);
                        }
                    }
                }
                Ok(())
            },
        }
    }

    /// Forgets the network `network_id` and gives the command that deletes
    /// its bridge.
    pub fn remove_network(&mut self, network_id: &str) -> (r: Result<String, DockerError>)
        requires
            old(self).wf(),
        ensures
            final(self).wf(),
            !has_key(old(self).networks_view(), network_id@) ==> (r matches Err(e) && is_unknown_network(
                e,
                network_id@,
            ) && final(self).networks_view() == old(self).networks_view()),
            has_key(old(self).networks_view(), network_id@) ==> (r matches Ok(cmd) && cmd@ == "ip link delete "@
                + bridge_of(network_id@) && final(self).networks_view() == assoc_remove(
                old(self).networks_view(),
                network_id@,
            )),
    {
        let ghost before = self.networks_view();
        match assoc_find(&self.networks, network_id) {
            None => Err(DockerError::not_found("network", network_id)),
            Some(i) => {
                proof {
                    assert(utf8_cut(before[i as int].0, 8));
                    lemma_ids_ok_remove(before, network_id@);
                }
                assoc_delete(&mut self.networks, network_id);
                let b = bridge_name(network_id);
                Ok(delete_bridge(b.as_str()))
            },
        }
    }

    /// The network `network_id`.
    pub fn inspect_network(&self, network_id: &str) -> (r: Result<NetworkInfo, DockerError>)
        ensures
            !has_key(self.networks_view(), network_id@) ==> (r matches Err(e) && is_unknown_network(
                e,
                network_id@,
            )),
            forall|i: int|
                key_at(self.networks_view(), network_id@, i) ==> (r matches Ok(n) && n.deep_view()
                    == self.networks_view()[i].1.0),
    {
        match assoc_find(&self.networks, network_id) {
            None => Err(DockerError::not_found("network", network_id)),
            Some(i) => {
                proof {
                    let s = self.networks_view();
                    assert forall|x: int| key_at(s, network_id@, x) implies x == i by {
                        if x < i {
                            assert(s[x].0 != network_id@);
                        }
                        if i < x {
                            assert(s[i as int].0 == network_id@);
                        }
                    }
                }
                Ok(copy_network(&self.networks[i].1.0))
            },
        }
    }

    /// The rules that forward a host port to the container at
    /// `container_ip`.
    pub fn add_port_mapping(&self, container_id: &str, container_ip: &str, port_mapping: &PortMapping) -> (r:
        Vec<String>)
        ensures
            r.deep_view() == forward_rules(container_ip@, *port_mapping),
    {
        let host = match &port_mapping.host_address {
            Some(a) => a.clone(),
            None => "0.0.0.0".to_string(),
        };
        let hp = decimal_chars(port_mapping.host_port as u64);
        let cp = decimal_chars(port_mapping.container_port as u64);
        let mut pre = chars_of("iptables -t nat -A PREROUTING -p tcp -d ");
        append_str(&mut pre, host.as_str());
        append_str(&mut pre, " --dport ");
        append_chars(&mut pre, &hp);
        append_str(&mut pre, " -j DNAT --to-destination ");
        append_str(&mut pre, container_ip);
        append_str(&mut pre, ":");
        append_chars(&mut pre, &cp);
        let mut post = chars_of("iptables -t nat -A POSTROUTING -p tcp -s ");
        append_str(&mut post, container_ip);
        append_str(&mut post, " --sport ");
        append_chars(&mut post, &cp);
        append_str(&mut post, " -j MASQUERADE");
        let mut r: Vec<String> = Vec::new();
        r.push(string_from_chars(&pre));
        r.push(string_from_chars(&post));
        assert(r.deep_view() =~= forward_rules(container_ip@, *port_mapping));
        r
    }

    /// The rules that stop forwarding the ports of `port_mapping` (failures
    /// to delete them are ignored by the caller).
    pub fn remove_port_mapping(&self, port_mapping: &PortMapping) -> (r: Vec<String>)
        ensures
            r.deep_view() == unforward_rules(*port_mapping),
    {
        let hp = decimal_chars(port_mapping.host_port as u64);
        let cp = decimal_chars(port_mapping.container_port as u64);
        let mut pre = chars_of("iptables -t nat -D PREROUTING -p tcp --dport ");
        append_chars(&mut pre, &hp);
        append_str(&mut pre, " -j DNAT");
        let mut post = chars_of("iptables -t nat -D POSTROUTING -p tcp --sport ");
        append_chars(&mut post, &cp);
        append_str(&mut post, " -j MASQUERADE");
        let mut r: Vec<String> = Vec::new();
        r.push(string_from_chars(&pre));
        r.push(string_from_chars(&post));
        assert(r.deep_view() =~= unforward_rules(*port_mapping));
        r
    }
}

/// What a new Windows manager holds (one network, the default one) is what
/// its listing gives: a single network, `nat`, with the `nat` driver.
pub proof fn law_new_windows_manager_lists_default(networks: Seq<(Seq<char>, NetworkInfoView)>)
    requires
        networks.len() == 1,
        networks[0].1 == default_windows_network(networks[0].0),
    ensures
        ({
            let listed = networks.map_values(|e: (Seq<char>, NetworkInfoView)| e.1);
            &&& listed.len() == 1
            &&& listed[0].1 == "nat"@
            &&& listed[0].2 == "nat"@
            &&& listed[0].8.len() == 0
        }),
{
}

/// Removing a network just created under a fresh id gives back the table
/// of networks as it was.
pub proof fn law_remove_undoes_create(s: NetworksView, id: Seq<char>, n: (NetworkInfoView, Set<Seq<char>>))
    requires
        !has_key(s, id),
    ensures
        assoc_remove(assoc_insert(s, id, n), id) == s,
{
    law_assoc_remove_after_insert(s, id, n);
}

/// Linking a container that is not attached yet to a network with a free
/// address, recording it, and unlinking it again gives back the network's
/// containers and addresses in use as they were.
pub proof fn law_disconnect_undoes_connect(
    n: NetworkInfoView,
    used: Set<Seq<char>>,
    container_id: Seq<char>,
    ip: Seq<char>,
    e: u64,
    a: u8,
    b: u8,
    c: u8,
    d: u8,
)
    requires
        !has_key(n.8, container_id),
        !used.contains(ip),
    ensures
        ({
            let cs = assoc_insert(n.8, container_id, attachment(container_id, ip, e, a, b, c, d));
            &&& has_key(cs, container_id)
            &&& cs[choose|j: int| key_at(cs, container_id, j)].1.3 == ip
            &&& with_containers(with_containers(n, cs), assoc_remove(cs, container_id)) == n
            &&& used.insert(ip).remove(ip) == used
        }),
{
    let x = attachment(container_id, ip, e, a, b, c, d);
    let cs = assoc_insert(n.8, container_id, x);
    law_assoc_read_after_write(n.8, container_id, x);
    lemma_has_key_first(cs, container_id);
    let j = choose|j: int| key_at(cs, container_id, j);
    assert(cs[j].1 == x);
    law_assoc_remove_after_insert(n.8, container_id, x);
    assert(used.insert(ip).remove(ip) =~= used);
}

// ---------------------------------------------------------------------------
// The Windows network manager.

/// The address a container gets on a Windows network when the byte `x` is
/// drawn: `172.17.0.N` with `N` between 2 and 255.
pub open spec fn windows_ip(x: u8) -> Seq<char> {
    "172.17.0."@ + decimal((x % 254 + 2) as nat)
}

/// The record of the container `container_id` attached to a Windows
/// network, under the endpoint id drawn as `e`, the MAC address drawn as
/// `a`, `b`, `c`, `d` and the address drawn as `x`.
pub open spec fn windows_attachment(container_id: Seq<char>, e: u64, a: u8, b: u8, c: u8, d: u8, x: u8) -> (
    Seq<char>,
    Seq<char>,
    Seq<char>,
    Seq<char>,
    Seq<char>,
) {
    attachment(container_id, windows_ip(x), e, a, b, c, d)
}

/// The default network of a Windows manager, under the id `id`: `nat`,
/// with the `nat` driver, local, attachable, with no container, option or
/// label.
pub open spec fn default_windows_network(id: Seq<char>) -> NetworkInfoView {
    (id, "nat"@, "nat"@, "local"@, false, false, true, false, seq![], seq![], seq![])
}

/// The Windows network manager: keeps its networks in memory, by id, and
/// makes up the endpoint, MAC address and address of attached containers.
#[derive(Debug)]
pub struct WindowsNetworkManager {
    networks: Vec<(String, NetworkInfo)>,
}

impl WindowsNetworkManager {
    /// The networks, by id.
    pub closed spec fn networks(&self) -> Seq<(Seq<char>, NetworkInfoView)> {
        self.networks.deep_view()
    }

    /// A manager holding the default network: `nat`, with the `nat`
    /// driver, under a new random id (a 64-bit number in lowercase
    /// hexadecimal).
    pub fn new() -> (m: Self)
        ensures
            m.networks().len() == 1,
            exists|b: u64| m.networks()[0].0 == #[trigger] hex_of(b),
            m.networks()[0].1 == default_windows_network(m.networks()[0].0),
    {
        let mut m = WindowsNetworkManager { networks: Vec::new() };
        let config = NetworkConfig {
            name: "nat".to_string(),
            driver: "nat".to_string(),
            ipam: None,
            options: None,
            aliases: None,
            network_mode: None,
            enable_ipv6: false,
        };
        let r = m.create_network(&config);
        proof {
            let n = r->Ok_0;
            assert(new_network_view(n.id@, config) =~= default_windows_network(n.id@));
        }
        m
    }

    /// Creates a network from `config` under a new random id (a 64-bit
    /// number in lowercase hexadecimal), replacing a network with that id.
    pub fn create_network(&mut self, config: &NetworkConfig) -> (r: Result<NetworkInfo, DockerError>)
        ensures
            r matches Ok(n) && (exists|b: u64| n.id@ == #[trigger] hex_of(b)) && n.deep_view()
                == new_network_view(n.id@, *config) && final(self).networks() == assoc_insert(
                old(self).networks(),
                n.id@,
                n.deep_view(),
            ),
    {
        let id = new_network_id();
        let options = match &config.options {
            Some(o) => copy_pairs(o),
            None => Vec::new(),
        };
        let info = NetworkInfo {
            id: id.clone(),
            name: config.name.clone(),
            driver: config.driver.clone(),
            scope: "local".to_string(),
            enable_ipv6: config.enable_ipv6,
            internal: false,
            attachable: true,
            ingress: false,
            containers: Vec::new(),
            options,
            labels: Vec::new(),
        };
        assert(info.deep_view() =~= new_network_view(id@, *config));
        let r = copy_network(&info);
        assoc_put(&mut self.networks, id, info);
        Ok(r)
    }

    /// Attaches the container `container_id` to the network `network_id`
    /// (replacing an earlier attachment of it) under a random endpoint id,
    /// MAC address and address; the aliases are not kept. Fails when the
    /// network is unknown.
    pub fn connect_container(&mut self, network_id: &str, container_id: &str, aliases: Option<Vec<String>>) -> (r:
        Result<(), DockerError>)
        ensures
            !has_key(old(self).networks(), network_id@) ==> (r matches Err(e) && is_unknown_network(
                e,
                network_id@,
            ) && final(self).networks() == old(self).networks()),
            forall|i: int|
                key_at(old(self).networks(), network_id@, i) ==> {
                    let n = old(self).networks()[i].1;
                    &&& r is Ok
                    &&& exists|e: u64, a: u8, b: u8, c: u8, d: u8, x: u8|
                        final(self).networks() == old(self).networks().update(
                            i,
                            (
                                network_id@,
                                with_containers(
                                    n,
                                    assoc_insert(
                                        n.8,
                                        container_id@,
                                        #[trigger] windows_attachment(container_id@, e, a, b, c, d, x),
                                    ),
                                ),
                            ),
                        )
                },
    {
        let ghost before = self.networks();
        match assoc_find(&self.networks, network_id) {
            None => Err(DockerError::not_found("network", network_id)),
            Some(i) => {
                let e = random_u64();
                let a = random_u8();
                let b = random_u8();
                let cc = random_u8();
                let d = random_u8();
                let x = random_u8();
                let ev = hex_chars(e);
                let mac = mac_chars(a, b, cc, d);
                let host: u64 = (x % 254 + 2) as u64;
                let mut ip = chars_of("172.17.0.");
                let digits = crate::text::decimal_chars(host);
                crate::text::append_chars(&mut ip, &digits);
                assert(ip@ =~= windows_ip(x));
                let info = ContainerInfo {
                    name: container_id.to_string(),
                    endpoint_id: string_from_chars(&ev),
                    mac_address: string_from_chars(&mac),
                    ipv4_address: string_from_chars(&ip),
                    ipv6_address: String::new(),
                };
                let (k, mut net) = self.networks.remove(i);
                let ghost cs0 = net.containers.deep_view();
                assoc_put(&mut net.containers, container_id.to_string(), info);
                let ghost nv = net.deep_view();
                self.networks.insert(i, (k, net));
                proof {
                    let c = windows_attachment(container_id@, e, a, b, cc, d, x);
                    assert(nv =~= with_containers(before[i as int].1, assoc_insert(cs0, container_id@, c)));
                    assert(self.networks() =~= before.update(
                        i as int,
                        (network_id@, with_containers(before[i as int].1, assoc_insert(before[i as int].1.8, container_id@, c))),
                    ));
                    assert forall|j: int| key_at(before, network_id@, j) implies j == i by {
                        crate::runtime::lemma_key_at_unique(before, network_id@, i as int, j);
                    }
                }
                Ok(())
            },
        }
    }

    /// Detaches the container `container_id` from the network
    /// `network_id` (nothing changes when it is not attached); fails when
    /// the network is unknown.
    pub fn disconnect_container(&mut self, network_id: &str, container_id: &str) -> (r: Result<(), DockerError>)
        ensures
            !has_key(old(self).networks(), network_id@) ==> (r matches Err(e) && is_unknown_network(
                e,
                network_id@,
            ) && final(self).networks() == old(self).networks()),
            forall|i: int|
                key_at(old(self).networks(), network_id@, i) ==> {
                    let n = old(self).networks()[i].1;
                    &&& r is Ok
                    &&& final(self).networks() == old(self).networks().update(
                        i,
                        (network_id@, with_containers(n, assoc_remove(n.8, container_id@))),
                    )
                },
    {
        let ghost before = self.networks();
        match assoc_find(&self.networks, network_id) {
            None => Err(DockerError::not_found("network", network_id)),
            Some(i) => {
                let (k, mut net) = self.networks.remove(i);
                let ghost cs0 = net.containers.deep_view();
                assoc_delete(&mut net.containers, container_id);
                let ghost nv = net.deep_view();
                self.networks.insert(i, (k, net));
                proof {
                    assert(nv =~= with_containers(before[i as int].1, assoc_remove(cs0, container_id@)));
                    assert(self.networks() =~= before.update(
                        i as int,
                        (network_id@, with_containers(before[i as int].1, assoc_remove(before[i as int].1.8, container_id@))),
                    ));
                    assert forall|j: int| key_at(before, network_id@, j) implies j == i by {
                        crate::runtime::lemma_key_at_unique(before, network_id@, i as int, j);
                    }
                }
                Ok(())
            },
        }
    }

    /// Removes the network `network_id`; fails when it is unknown.
    pub fn remove_network(&mut self, network_id: &str) -> (r: Result<(), DockerError>)
        ensures
            has_key(old(self).networks(), network_id@) ==> r is Ok && final(self).networks() == assoc_remove(
                old(self).networks(),
                network_id@,
            ),
            !has_key(old(self).networks(), network_id@) ==> (r matches Err(e) && is_unknown_network(
                e,
                network_id@,
            ) && final(self).networks() == old(self).networks()),
    {
        match assoc_find(&self.networks, network_id) {
            None => Err(DockerError::not_found("network", network_id)),
            Some(_) => {
                assoc_delete(&mut self.networks, network_id);
                Ok(())
            },
        }
    }

    /// The networks, in the order they were first created.
    pub fn list_networks(&self) -> (r: Result<Vec<NetworkInfo>, DockerError>)
        ensures
            r matches Ok(l) && l.deep_view() == self.networks().map_values(
                |e: (Seq<char>, NetworkInfoView)| e.1,
            ),
    {
        let mut out: Vec<NetworkInfo> = Vec::new();
        let mut i: usize = 0;
        while i < self.networks.len()
            invariant
                i <= self.networks.len(),
                out.deep_view() == self.networks().map_values(|e: (Seq<char>, NetworkInfoView)| e.1).take(
                    i as int,
                ),
            decreases self.networks.len() - i,
        {
            let ghost o0 = out.deep_view();
            let c = copy_network(&self.networks[i].1);
            out.push(c);
            assert(self.networks()[i as int].1 == self.networks@[i as int].1.deep_view());
            assert(out.deep_view() =~= o0.push(c.deep_view()));
            assert(self.networks().map_values(|e: (Seq<char>, NetworkInfoView)| e.1).take(i + 1)
                =~= self.networks().map_values(|e: (Seq<char>, NetworkInfoView)| e.1).take(i as int).push(
                self.networks()[i as int].1,
            ));
            i = i + 1;
        }
        assert(self.networks().map_values(|e: (Seq<char>, NetworkInfoView)| e.1).take(
            self.networks.len() as int,
        ) =~= self.networks().map_values(|e: (Seq<char>, NetworkInfoView)| e.1));
        Ok(out)
    }

    /// The network `network_id`; fails when it is unknown.
    pub fn inspect_network(&self, network_id: &str) -> (r: Result<NetworkInfo, DockerError>)
        ensures
            !has_key(self.networks(), network_id@) ==> (r matches Err(e) && is_unknown_network(e, network_id@)),
            forall|i: int|
                key_at(self.networks(), network_id@, i) ==> (r matches Ok(n) && n.deep_view()
                    == self.networks()[i].1),
    {
        match assoc_find(&self.networks, network_id) {
            None => Err(DockerError::not_found("network", network_id)),
            Some(i) => {
                proof {
                    assert forall|j: int| key_at(self.networks(), network_id@, j) implies j == i by {
                        crate::runtime::lemma_key_at_unique(self.networks(), network_id@, i as int, j);
                    }
                }
                Ok(copy_network(&self.networks[i].1))
            },
        }
    }
}

} // verus!
