use rusty_docker::hosts::{command_outcome, names_of, NetworkManager};
use rusty_docker::runtime::{
    container_from_summary, container_name, exec_argv, host_ports, mount_requests, new_container_id,
    port_requests, status_from_state, Container, ContainerStatus, ContainerTable, FileShareManager,
    HyperVManager, InstallAction, InstallStep, Wsl2Manager,
};
use rusty_docker::settings::{ContainerRuntime, Phase};
use rusty_docker::types::Timestamp;

fn container(id: &str, status: ContainerStatus) -> Container {
    Container {
        id: id.to_string(),
        name: Some(format!("n-{}", id)),
        image: "alpine".to_string(),
        status,
        ports: vec![],
        environment: vec![],
        volumes: vec![],
        secrets: vec![],
        cap_add: vec![],
        cap_drop: vec![],
        privileged: false,
        read_only: false,
    }
}

#[test]
fn container_table_read_after_write() {
    let mut t = ContainerTable::new();
    t.insert("a".to_string(), container("a", ContainerStatus::Created));
    t.insert("b".to_string(), container("b", ContainerStatus::Running));
    assert_eq!(t.get("a").unwrap().status, ContainerStatus::Created);
    t.insert("a".to_string(), container("a", ContainerStatus::Running));
    assert_eq!(t.get("a").unwrap().status, ContainerStatus::Running);
    assert_eq!(t.list(true).len(), 2);
    t.set_status("b", ContainerStatus::Stopped).unwrap();
    assert_eq!(t.list(false).len(), 1);
    t.remove("a").unwrap();
    assert!(t.get("a").is_none());
    assert!(t.remove("a").is_err());
    assert!(t.set_status("zz", ContainerStatus::Running).is_err());
    assert_eq!(t.exec("b", "ls").unwrap(), "Command executed: ls");
    assert_eq!(t.logs("b").unwrap(), "Container logs not implemented in mock");
    assert!(t.logs("a").is_err());
}

#[test]
fn engine_reports_become_containers() {
    assert_eq!(status_from_state(Some("running")), ContainerStatus::Running);
    assert_eq!(status_from_state(Some("exited")), ContainerStatus::Exited);
    assert_eq!(status_from_state(Some("weird")), ContainerStatus::Stopped);
    assert_eq!(status_from_state(None), ContainerStatus::Stopped);
    assert_eq!(container_name("//web"), "web");
    let c = container_from_summary(
        Some("abc".to_string()),
        Some(vec!["/web".to_string()]),
        Some("nginx".to_string()),
        Some("paused".to_string()),
    );
    assert_eq!(c.id, "abc");
    assert_eq!(c.name, Some("web".to_string()));
    assert_eq!(c.status, ContainerStatus::Paused);
}

#[test]
fn exec_command_lines() {
    assert_eq!(exec_argv("echo hi", true), vec!["/bin/sh", "-c", "echo hi"]);
    assert_eq!(exec_argv("  ls   -la ", false), vec!["ls", "-la"]);
}

#[test]
fn share_and_port_requests() {
    let vols = vec!["C:\\data:/data".to_string(), "novolume".to_string()];
    assert_eq!(mount_requests(&vols), vec![("C".to_string(), "\\data:/data".to_string())]);
    let ports = vec!["8080:80".to_string(), "bad".to_string(), "x:1".to_string()];
    assert_eq!(port_requests(&ports), vec![(8080, 80)]);
    assert_eq!(host_ports(&ports), vec![8080]);
    assert_eq!(new_container_id().chars().count(), 32);
}

#[test]
fn file_shares() {
    let mut m = FileShareManager::new();
    assert_eq!(m.add_mount("C:\\missing", "/x", false).unwrap_err(), "Host path does not exist: C:\\missing");
    m.add_mount("C:\\Users\\me", "/home/me", true).unwrap();
    assert_eq!(m.get_host_path("/home/me"), Some("C:\\Users\\me".to_string()));
    assert_eq!(m.get_container_path("C:\\Users\\me"), Some("/home/me".to_string()));
    assert_eq!(m.get_host_path("/nope"), None);
    assert_eq!(m.windows_to_wsl_path("C:\\Users\\Me"), "/mnt/c/users/me");
    assert_eq!(m.wsl_to_windows_path("/mnt/c/users/me"), "C:\\users\\me");
    assert_eq!(m.wsl_to_windows_path("/home/me"), "/home/me");
}

#[test]
fn wsl_installation_steps() {
    let w = Wsl2Manager::new("docker-desktop");
    let first = w.install_docker();
    assert!(matches!(first, InstallAction::Run(InstallStep::Install, _)));
    match w.install_docker_next(InstallStep::Install, Ok(String::new())) {
        InstallAction::Run(InstallStep::StartService, cmd) => assert_eq!(cmd, "sudo service docker start"),
        other => panic!("unexpected action {:?}", other),
    }
    match w.install_docker_next(InstallStep::Install, Err("boom".to_string())) {
        InstallAction::Done(Err(m)) => assert_eq!(m, "Failed to install Docker: boom"),
        other => panic!("unexpected action {:?}", other),
    }
    assert!(matches!(w.install_docker_next(InstallStep::StartService, Ok(String::new())), InstallAction::Done(Ok(()))));
    assert!(w.is_distro_exists("NAME STATE\n docker-desktop Running"));
    assert_eq!(w.create_distro(""), Some(vec!["--install".to_string(), "Ubuntu".to_string(), "--distribution".to_string(), "docker-desktop".to_string()]));
    assert_eq!(w.create_distro("docker-desktop"), None);
    assert_eq!(w.stop_distro(), vec!["--terminate", "docker-desktop"]);
    assert_eq!(Wsl2Manager::exec_outcome(true, "  out \n", ""), Ok("out".to_string()));
    assert_eq!(Wsl2Manager::exec_outcome(false, "", "bad"), Err("Failed to execute command: bad".to_string()));
}

#[test]
fn hyperv_scripts() {
    let h = HyperVManager::new("docker");
    assert_eq!(h.full_vm_name("vm1"), "docker-vm1");
    assert_eq!(h.start_vm("vm1"), "Start-VM -Name 'docker-vm1'");
    assert_eq!(h.stop_vm("vm1"), "Stop-VM -Name 'docker-vm1' -Force");
    assert_eq!(
        h.create_vm("vm1", 2048, 20, ""),
        Ok("New-VM -Name 'docker-vm1' -MemoryStartupBytes 2048MB -NewVHDPath 'C:\\Hyper-V\\Virtual Hard Disks\\docker-vm1.vhdx' -NewVHDSizeBytes 20GB -Generation 2".to_string())
    );
    assert_eq!(h.create_vm("vm1", 1, 1, "Name State"), Err("Virtual machine 'docker-vm1' already exists".to_string()));
    assert!(h.is_hyperv_enabled("FeatureName : Microsoft-Hyper-V\nState : Enabled"));
    assert!(!h.is_hyperv_enabled("State : Disabled"));
    assert_eq!(names_of("docker-a\r\n\r\n docker-b \n"), vec!["docker-a", "docker-b"]);
    assert_eq!(HyperVManager::vm_status_of(" Running\r\n"), "Running");
    assert_eq!(command_outcome("start virtual machine", false, "denied"), Err("Failed to start virtual machine: denied".to_string()));
    assert_eq!(command_outcome("start virtual machine", true, "denied"), Ok(()));
}

#[test]
fn hyperv_network_scripts() {
    let n = NetworkManager::new("DockerNAT");
    assert_eq!(n.create_network(""), Some("New-VMSwitch -Name 'DockerNAT' -SwitchType Internal".to_string()));
    assert_eq!(n.create_network("DockerNAT Up"), None);
    assert_eq!(
        n.configure_port_mapping(8080, 80),
        "netsh interface portproxy add v4tov4 listenport=8080 listenaddress=0.0.0.0 connectport=80 connectaddress=192.168.50.2"
    );
    assert_eq!(n.remove_port_mapping(8080), "netsh interface portproxy delete v4tov4 listenport=8080 listenaddress=0.0.0.0");
}

#[test]
fn container_runtime_lifecycle() {
    let mut rt = ContainerRuntime::new().unwrap();
    let t = |s: u64| Timestamp { secs: s, nanos: 0 };
    let c = rt.create_container("web", "nginx", t(1));
    assert_eq!(c.id.len(), 36);
    assert_eq!(c.network_name, "default");
    rt.start_container(&c.id, t(2)).unwrap();
    // A running container can neither start again nor be removed.
    assert!(rt.start_container(&c.id, t(3)).is_err());
    assert!(rt.remove_container(&c.id).is_err());
    assert_eq!(rt.list_containers(false).len(), 1);
    rt.stop_container(&c.id, t(4)).unwrap();
    assert!(rt.stop_container(&c.id, t(5)).is_err());
    let listed = rt.list_containers(true);
    assert_eq!(listed[0].started_at, Some(t(2)));
    assert_eq!(listed[0].stopped_at, Some(t(4)));
    assert_eq!(listed[0].pid, None);
    assert!(rt.list_containers(false).is_empty());
    rt.remove_container(&c.id).unwrap();
    assert!(rt.start_container(&c.id, t(6)).is_err());
    let r = rt.run_container("redis", None, t(7)).unwrap();
    assert!(r.name.starts_with("container-"));
    assert_eq!(r.name.len(), "container-".len() + 8);
    assert_eq!(rt.list_containers(false).len(), 1);
    let _ = Phase::Running;
}
