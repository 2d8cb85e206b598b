use rusty_docker::bridge::WindowsNetworkManager;
use rusty_docker::bridge::{
    bridge_name, configure_container_network, connect_veth_to_bridge, create_bridge, network_from_summary,
    BridgeNetworkDriver,
};
use rusty_docker::errors::DockerErrorKind;
use rusty_docker::network::{
    new_config_manager, IpManager, IpamConfig, IpamSubnetConfig, NetworkConfig, PortMapping,
};

fn config(name: &str, driver: &str, ipam: Option<IpamConfig>) -> NetworkConfig {
    NetworkConfig {
        name: name.to_string(),
        driver: driver.to_string(),
        ipam,
        options: None,
        aliases: None,
        network_mode: None,
        enable_ipv6: false,
    }
}

#[test]
fn ip_manager_hands_out_lowest_free_addresses() {
    let mut m = IpManager::new("172.17.0.0/24", "172.17.0.1");
    assert_eq!(m.allocate_ip().unwrap(), "172.17.0.2");
    assert_eq!(m.allocate_ip().unwrap(), "172.17.0.3");
    m.release_ip("172.17.0.2");
    // The released address is the lowest free one again.
    assert_eq!(m.allocate_ip().unwrap(), "172.17.0.2");
    assert_eq!(m.allocate_ip().unwrap(), "172.17.0.4");
}

#[test]
fn ip_manager_skips_gateway_in_range() {
    let mut m = IpManager::new("172.17.0.0/24", "172.17.0.2");
    assert_eq!(m.allocate_ip().unwrap(), "172.17.0.3");
}

#[test]
fn ip_manager_runs_out() {
    let mut m = IpManager::new("172.17.0.0/24", "172.17.0.1");
    for _ in 2..255 {
        m.allocate_ip().unwrap();
    }
    let e = m.allocate_ip().unwrap_err();
    match *e.kind {
        DockerErrorKind::NetworkError { reason } => assert_eq!(reason, "No available IP addresses"),
        other => panic!("unexpected error {:?}", other),
    }
}

#[test]
fn network_validation_names_first_problem() {
    let m = new_config_manager("/etc/networks");
    assert_eq!(m.get_config_path(), "/etc/networks");
    assert!(m.validate_config(&config("net", "bridge", None)).is_ok());
    let e = m.validate_config(&config("", "bridge", None)).unwrap_err();
    match *e.kind {
        DockerErrorKind::InvalidParams { param, reason } => {
            assert_eq!(param, "name");
            assert_eq!(reason, "Network name cannot be empty");
        }
        other => panic!("unexpected error {:?}", other),
    }
    let ipam = IpamConfig {
        driver: "default".to_string(),
        config: vec![
            IpamSubnetConfig { subnet: "10.0.0.0/24".to_string(), gateway: None, ip_range: None },
            IpamSubnetConfig { subnet: String::new(), gateway: None, ip_range: None },
        ],
    };
    let e = m.validate_config(&config("net", "bridge", Some(ipam))).unwrap_err();
    match *e.kind {
        DockerErrorKind::InvalidParams { param, reason } => {
            assert_eq!(param, "ipam.config[1].subnet");
            assert_eq!(reason, "Subnet CIDR cannot be empty");
        }
        other => panic!("unexpected error {:?}", other),
    }
}

#[test]
fn bridge_commands() {
    assert_eq!(bridge_name("0123456789abcdef"), "br-01234567");
    // The name keeps the first eight bytes, whole characters only.
    assert_eq!(bridge_name("éééée"), "br-éééé");
    assert_eq!(bridge_name("ab€dexyz"), "br-ab€dex");
    assert_eq!(
        create_bridge("br-01234567", ""),
        vec!["ip link add br-01234567 type bridge".to_string(), "ip link set br-01234567 up".to_string()]
    );
    assert!(create_bridge("br-01234567", "5: br-01234567: <BROADCAST>").is_empty());
    assert_eq!(
        connect_veth_to_bridge("veth0", "br-1"),
        vec!["ip link set veth0 up".to_string(), "ip link set veth0 master br-1".to_string()]
    );
    let c = configure_container_network("eth0", "abc", "172.17.0.2");
    assert_eq!(c[0], "mkdir -p /var/run/netns && touch /var/run/netns/abc");
    assert_eq!(c[1], "ip link set eth0 netns abc");
    assert_eq!(
        c[2],
        "ip netns exec abc ip link set eth0 up && ip netns exec abc ip addr add 172.17.0.2/24 dev eth0 && ip netns exec abc ip route add default via 172.17.0.1"
    );
}

#[test]
fn bridge_driver_connects_and_disconnects() {
    let mut d = BridgeNetworkDriver::new();
    let info = d.create_network("0123456789abcdef", &config("net", "bridge", None));
    assert_eq!(info.id, "0123456789abcdef");
    assert_eq!(info.scope, "local");
    assert!(info.attachable);
    let (ip, cmds) = d.connect_container("0123456789abcdef", "c0ffee1234").unwrap();
    assert_eq!(ip, "172.17.0.2");
    assert_eq!(cmds.len(), 6);
    assert_eq!(cmds[0], "ip link add veth-012345-c0ffee   type veth peer name eth0");
    assert_eq!(cmds[2], "ip link set veth-012345-c0ffee   master br-01234567");
    d.attach_container("0123456789abcdef", "c0ffee1234", &ip).unwrap();
    let n = d.inspect_network("0123456789abcdef").unwrap();
    assert_eq!(n.containers.len(), 1);
    assert_eq!(n.containers[0].1.ipv4_address, "172.17.0.2");
    assert!(n.containers[0].1.mac_address.starts_with("02:42:"));
    assert_eq!(n.containers[0].1.mac_address.len(), 17);
    d.disconnect_container("0123456789abcdef", "c0ffee1234").unwrap();
    assert!(d.inspect_network("0123456789abcdef").unwrap().containers.is_empty());
    // The freed address is handed out again.
    let (ip2, _) = d.connect_container("0123456789abcdef", "c0ffee1234").unwrap();
    assert_eq!(ip2, "172.17.0.2");
    assert_eq!(d.remove_network("0123456789abcdef").unwrap(), "ip link delete br-01234567");
    assert!(d.inspect_network("0123456789abcdef").is_err());
    match *d.connect_container("0123456789abcdef", "c0ffee1234").unwrap_err().kind {
        DockerErrorKind::ResourceNotFound { resource_type, identifier } => {
            assert_eq!(resource_type, "network");
            assert_eq!(identifier, "0123456789abcdef");
        }
        other => panic!("unexpected error {:?}", other),
    }
}

#[test]
fn bridge_network_uses_configured_gateway() {
    let mut d = BridgeNetworkDriver::new();
    let ipam = IpamConfig {
        driver: "default".to_string(),
        config: vec![IpamSubnetConfig {
            subnet: "172.17.0.0/24".to_string(),
            gateway: Some("172.17.0.2".to_string()),
            ip_range: None,
        }],
    };
    d.create_network("aaaaaaaabbbb", &config("net", "bridge", Some(ipam)));
    let (ip, _) = d.connect_container("aaaaaaaabbbb", "cccccc").unwrap();
    assert_eq!(ip, "172.17.0.3");
}

#[test]
fn veth_names_cut_ids_at_six_bytes() {
    let mut d = BridgeNetworkDriver::new();
    d.create_network("aaaaaaaabbbb", &config("net", "bridge", None));
    let (_, cmds) = d.connect_container("aaaaaaaabbbb", "éééx").unwrap();
    assert!(cmds[0].contains("veth-aaaaaa-ééé  "), "{}", cmds[0]);
}

#[test]
fn port_forwarding_rules() {
    let d = BridgeNetworkDriver::new();
    let pm = PortMapping { host_port: 8080, container_port: 80, host_address: None };
    assert_eq!(
        d.add_port_mapping("c", "172.17.0.2", &pm),
        vec![
            "iptables -t nat -A PREROUTING -p tcp -d 0.0.0.0 --dport 8080 -j DNAT --to-destination 172.17.0.2:80"
                .to_string(),
            "iptables -t nat -A POSTROUTING -p tcp -s 172.17.0.2 --sport 80 -j MASQUERADE".to_string(),
        ]
    );
    assert_eq!(
        d.remove_port_mapping(&pm),
        vec![
            "iptables -t nat -D PREROUTING -p tcp --dport 8080 -j DNAT".to_string(),
            "iptables -t nat -D POSTROUTING -p tcp --sport 80 -j MASQUERADE".to_string(),
        ]
    );
}

#[test]
fn network_summary_defaults() {
    let n = network_from_summary(Some("id".to_string()), None, None, None, Some(true), None, None, None, None, None);
    assert_eq!(n.id, "id");
    assert_eq!(n.name, "");
    assert!(n.enable_ipv6);
    assert!(!n.internal);
    assert!(n.options.is_empty());
}

#[test]
fn new_windows_manager_lists_the_default_network() {
    let m = WindowsNetworkManager::new();
    let networks = m.list_networks().unwrap();
    assert!(!networks.is_empty());
    assert_eq!(networks.len(), 1);
    assert_eq!(networks[0].name, "nat");
    assert_eq!(networks[0].driver, "nat");
    assert!(!networks[0].id.is_empty());
    assert!(networks[0].id.chars().all(|c| c.is_ascii_hexdigit()));
}

#[test]
fn windows_networks_are_kept_in_memory() {
    let mut m = WindowsNetworkManager::new();
    let config = rusty_docker::network::NetworkConfig {
        name: "win".to_string(),
        driver: "nat".to_string(),
        ipam: None,
        options: None,
        aliases: None,
        network_mode: None,
        enable_ipv6: false,
    };
    let n = m.create_network(&config).unwrap();
    assert_eq!(n.name, "win");
    assert_eq!(n.scope, "local");
    assert!(n.attachable);
    m.connect_container(&n.id, "c1", None).unwrap();
    let seen = m.inspect_network(&n.id).unwrap();
    assert_eq!(seen.containers.len(), 1);
    let attached = &seen.containers[0].1;
    assert!(attached.ipv4_address.starts_with("172.17.0."));
    assert!(attached.mac_address.starts_with("02:42:"));
    m.disconnect_container(&n.id, "c1").unwrap();
    assert!(m.inspect_network(&n.id).unwrap().containers.is_empty());
    assert_eq!(m.list_networks().unwrap().len(), 2);
    m.remove_network(&n.id).unwrap();
    assert!(m.remove_network(&n.id).is_err());
    assert!(m.connect_container("nope", "c1", None).is_err());
}
