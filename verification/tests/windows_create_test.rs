use rusty_docker::errors::DockerErrorKind;
use rusty_docker::runtime::{Container, ContainerStatus, FileShareManager};
use rusty_docker::windows_create::{
    windows_create_next, windows_op_next, WindowsCreateAction, WindowsCreateStep, WindowsOp, WindowsOpAction,
    WindowsOpStep,
};

fn request(volumes: &[&str], ports: &[&str]) -> Container {
    Container {
        id: "c0ffee".to_string(),
        name: Some("web".to_string()),
        image: "nginx".to_string(),
        status: ContainerStatus::Running,
        ports: ports.iter().map(|s| s.to_string()).collect(),
        environment: vec!["A=1".to_string()],
        volumes: volumes.iter().map(|s| s.to_string()).collect(),
        secrets: Vec::new(),
        cap_add: Vec::new(),
        cap_drop: Vec::new(),
        privileged: false,
        read_only: false,
    }
}

fn runtime_reason(a: WindowsCreateAction) -> String {
    match a {
        WindowsCreateAction::Fail(e) => match *e.kind {
            DockerErrorKind::RuntimeError { reason } => reason,
            other => panic!("unexpected error {:?}", other),
        },
        other => panic!("unexpected action {:?}", other),
    }
}

const OK: Result<bool, String> = Ok(true);

#[test]
fn wsl_path_creates_starts_installs_then_mounts_and_ports() {
    let c = request(&["C:\\data:/data", "novolume", "D:/x:/x"], &["8080:80", "bad", "70000:1", "53:53"]);
    let (s, a) = windows_create_next(WindowsCreateStep::Start, &OK, &c);
    assert_eq!(s, WindowsCreateStep::CheckWsl);
    assert!(matches!(a, WindowsCreateAction::AskWslInstalled));
    let (s, a) = windows_create_next(s, &Ok(true), &c);
    assert_eq!(s, WindowsCreateStep::CreateDistro);
    assert!(matches!(a, WindowsCreateAction::CreateDistro));
    let (s, a) = windows_create_next(s, &OK, &c);
    assert!(matches!(a, WindowsCreateAction::StartDistro));
    let (s, a) = windows_create_next(s, &OK, &c);
    assert!(matches!(a, WindowsCreateAction::InstallDocker));
    let (s, a) = windows_create_next(s, &OK, &c);
    assert_eq!(s, WindowsCreateStep::Mount(0));
    match a {
        WindowsCreateAction::AddMount { host, container } => {
            assert_eq!(host, "C");
            assert_eq!(container, "\\data:/data");
        }
        other => panic!("{:?}", other),
    }
    let (s, a) = windows_create_next(s, &OK, &c);
    assert_eq!(s, WindowsCreateStep::Mount(2));
    assert!(matches!(a, WindowsCreateAction::AddMount { .. }));
    let (s, a) = windows_create_next(s, &OK, &c);
    assert_eq!(s, WindowsCreateStep::Port(0));
    assert!(matches!(a, WindowsCreateAction::MapPort { host: 8080, container: 80 }));
    let (s, a) = windows_create_next(s, &OK, &c);
    assert_eq!(s, WindowsCreateStep::Port(3));
    assert!(matches!(a, WindowsCreateAction::MapPort { host: 53, container: 53 }));
    let (s, a) = windows_create_next(s, &OK, &c);
    assert_eq!(s, WindowsCreateStep::Done);
    match a {
        WindowsCreateAction::Record(r) => {
            assert_eq!(r.id, "c0ffee");
            assert_eq!(r.status, ContainerStatus::Created);
            assert_eq!(r.image, "nginx");
            assert_eq!(r.environment, vec!["A=1".to_string()]);
        }
        other => panic!("{:?}", other),
    }
}

#[test]
fn hyperv_path_and_its_failures() {
    let c = request(&[], &[]);
    let (s, a) = windows_create_next(WindowsCreateStep::CheckWsl, &Ok(false), &c);
    assert_eq!(s, WindowsCreateStep::CheckHyperV);
    assert!(matches!(a, WindowsCreateAction::AskHyperVEnabled));
    let (s2, a2) = windows_create_next(s, &Ok(false), &c);
    assert_eq!(s2, WindowsCreateStep::Done);
    assert_eq!(
        runtime_reason(a2),
        "Hyper-V is not enabled. Please enable Hyper-V in Windows Features or install WSL 2."
    );
    let (s, a) = windows_create_next(s, &Ok(true), &c);
    assert_eq!(s, WindowsCreateStep::CreateVm);
    match a {
        WindowsCreateAction::CreateVm { name, memory_mb, disk_gb } => {
            assert_eq!((name.as_str(), memory_mb, disk_gb), ("c0ffee", 2048, 20));
        }
        other => panic!("{:?}", other),
    }
    let (_, a) = windows_create_next(s, &Err("boom".to_string()), &c);
    assert_eq!(runtime_reason(a), "Failed to create Hyper-V VM: boom");
    let (s, a) = windows_create_next(s, &OK, &c);
    assert_eq!(s, WindowsCreateStep::Done);
    assert!(matches!(a, WindowsCreateAction::Record(_)));
}

#[test]
fn each_failure_has_its_message() {
    let c = request(&["a:b"], &["1:2"]);
    let e = || Err("x".to_string());
    let cases = [
        (WindowsCreateStep::CreateDistro, "Failed to create WSL distro: x"),
        (WindowsCreateStep::StartDistro, "Failed to start WSL distro: x"),
        (WindowsCreateStep::InstallDocker, "Failed to install Docker in WSL: x"),
        (WindowsCreateStep::Mount(0), "Failed to add mount: x"),
        (WindowsCreateStep::Port(0), "Failed to configure port mapping: x"),
    ];
    for (step, msg) in cases {
        let (s, a) = windows_create_next(step, &e(), &c);
        assert_eq!(s, WindowsCreateStep::Done);
        assert_eq!(runtime_reason(a), msg);
    }
    // A failed check counts as "not installed".
    let (s, _) = windows_create_next(WindowsCreateStep::CheckWsl, &e(), &c);
    assert_eq!(s, WindowsCreateStep::CheckHyperV);
}

#[test]
fn start_with_wsl_binds_folders_then_configures_network() {
    let mut shares = FileShareManager::new();
    shares.add_mount("C:\\Data", "/data", true).unwrap();
    let ports: Vec<String> = Vec::new();
    let (s, a) = windows_op_next(WindowsOp::Start, WindowsOpStep::Start, &Ok(true), "c1", &shares, &ports);
    assert!(matches!(a, WindowsOpAction::AskWslInstalled));
    let (s, a) = windows_op_next(WindowsOp::Start, s, &Ok(true), "c1", &shares, &ports);
    assert!(matches!(a, WindowsOpAction::StartDistro));
    let (s, a) = windows_op_next(WindowsOp::Start, s, &Ok(true), "c1", &shares, &ports);
    assert_eq!(s, WindowsOpStep::Mount(0));
    match a {
        WindowsOpAction::WslExec(cmd) => assert_eq!(cmd, "mkdir -p /data && mount --bind /mnt/c/data /data"),
        other => panic!("{:?}", other),
    }
    let (_, a) = windows_op_next(WindowsOp::Start, s, &Err("e".to_string()), "c1", &shares, &ports);
    assert_eq!(runtime_reason_op(a), "Failed to mount volume in WSL: e");
    let (s, a) = windows_op_next(WindowsOp::Start, s, &Ok(true), "c1", &shares, &ports);
    assert_eq!(s, WindowsOpStep::Network);
    assert!(matches!(a, WindowsOpAction::ConfigureWslNetwork));
    let (_, a) = windows_op_next(WindowsOp::Start, s, &Err("n".to_string()), "c1", &shares, &ports);
    assert_eq!(runtime_reason_op(a), "Failed to configure WSL network: n");
    let (s, a) = windows_op_next(WindowsOp::Start, s, &Ok(true), "c1", &shares, &ports);
    assert_eq!(s, WindowsOpStep::Done);
    assert!(matches!(a, WindowsOpAction::Finish));
}

#[test]
fn delete_with_hyperv_removes_vm_then_port_proxies() {
    let shares = FileShareManager::new();
    let ports = vec!["8080:80".to_string(), "x:1".to_string(), "53".to_string(), "9000:90".to_string()];
    let (s, a) = windows_op_next(WindowsOp::Delete, WindowsOpStep::CheckWsl, &Ok(false), "c1", &shares, &ports);
    assert_eq!(s, WindowsOpStep::Vm);
    assert!(matches!(a, WindowsOpAction::RemoveVm(ref n) if n == "c1"));
    let (_, a) = windows_op_next(WindowsOp::Delete, s, &Err("gone".to_string()), "c1", &shares, &ports);
    assert_eq!(runtime_reason_op(a), "Failed to remove Hyper-V VM: gone");
    let (s, a) = windows_op_next(WindowsOp::Delete, s, &Ok(true), "c1", &shares, &ports);
    assert_eq!(s, WindowsOpStep::Port(0));
    assert!(matches!(a, WindowsOpAction::RemovePortMapping(8080)));
    // A failed removal is ignored.
    let (s, a) = windows_op_next(WindowsOp::Delete, s, &Err("busy".to_string()), "c1", &shares, &ports);
    assert_eq!(s, WindowsOpStep::Port(3));
    assert!(matches!(a, WindowsOpAction::RemovePortMapping(9000)));
    let (s, a) = windows_op_next(WindowsOp::Delete, s, &Ok(true), "c1", &shares, &ports);
    assert_eq!(s, WindowsOpStep::Done);
    assert!(matches!(a, WindowsOpAction::Finish));
}

#[test]
fn stop_and_initialize_messages() {
    let shares = FileShareManager::new();
    let ports: Vec<String> = Vec::new();
    let e = Err("x".to_string());
    let (_, a) = windows_op_next(WindowsOp::Stop, WindowsOpStep::Distro, &e, "c", &shares, &ports);
    assert_eq!(runtime_reason_op(a), "Failed to stop WSL distro: x");
    let (_, a) = windows_op_next(WindowsOp::Stop, WindowsOpStep::Vm, &e, "c", &shares, &ports);
    assert_eq!(runtime_reason_op(a), "Failed to stop Hyper-V VM: x");
    let (_, a) = windows_op_next(WindowsOp::Start, WindowsOpStep::Vm, &e, "c", &shares, &ports);
    assert_eq!(runtime_reason_op(a), "Failed to start Hyper-V VM: x");
    let (_, a) = windows_op_next(WindowsOp::Initialize, WindowsOpStep::Distro, &e, "c", &shares, &ports);
    assert_eq!(runtime_reason_op(a), "Failed to create WSL distro: x");
    let (s, a) = windows_op_next(WindowsOp::Initialize, WindowsOpStep::CheckWsl, &Ok(false), "", &shares, &ports);
    assert_eq!(s, WindowsOpStep::CheckHyperV);
    assert!(matches!(a, WindowsOpAction::AskHyperVEnabled));
    let (_, a) = windows_op_next(WindowsOp::Initialize, s, &Ok(false), "", &shares, &ports);
    assert_eq!(
        runtime_reason_op(a),
        "Hyper-V is not enabled. Please enable Hyper-V in Windows Features or install WSL 2."
    );
    let (_, a) = windows_op_next(WindowsOp::Initialize, s, &Ok(true), "", &shares, &ports);
    assert!(matches!(a, WindowsOpAction::Finish));
}

fn runtime_reason_op(a: WindowsOpAction) -> String {
    match a {
        WindowsOpAction::Fail(e) => match *e.kind {
            DockerErrorKind::RuntimeError { reason } => reason,
            other => panic!("unexpected error {:?}", other),
        },
        other => panic!("unexpected action {:?}", other),
    }
}
