//! Creating a container on Windows, as a sequence of decisions: the caller
//! runs each action (a `wsl` or PowerShell command, a shared folder, a port
//! proxy) and hands back its outcome, and the next step follows from it.
//! WSL 2 is used when it is installed; otherwise a Hyper-V machine named
//! after the container, with 2048 MB of memory and a 20 GB disk. Then each
//! `host:container` volume is shared and each pair of 16-bit ports is
//! proxied, in order, and the container is recorded as created. Starting,
//! stopping and deleting a container and preparing the engine go the same
//! way.
use vstd::prelude::*;
use crate::errors::{DockerError, DockerErrorKind};
use crate::runtime::{copy_container, lowercase, wsl_form, Container, ContainerStatus, ContainerView, FileShareManager};
use crate::text::{chars_of, concat_str, parse_u16, parse_u16_spec, split_once_chars, split_once_spec, string_from_chars};

verus! {

broadcast use vstd::string::group_string_axioms;

/// Where the creation of a Windows container stands: the step whose
/// outcome is handed back next.
#[derive(Debug, Clone, Copy, PartialEq, Eq, Structural)]
pub enum WindowsCreateStep {
    /// Nothing asked yet.
    Start,
    /// Asked whether WSL 2 is installed.
    CheckWsl,
    /// Creating the WSL distribution.
    CreateDistro,
    /// Starting the WSL distribution.
    StartDistro,
    /// Installing Docker in the WSL distribution.
    InstallDocker,
    /// Asked whether Hyper-V is enabled.
    CheckHyperV,
    /// Creating the Hyper-V machine.
    CreateVm,
    /// Sharing the folder of the volume at this position.
    Mount(usize),
    /// Proxying the ports of the publication at this position.
    Port(usize),
    /// Finished (the container recorded, or the creation failed).
    Done,
}

/// What the caller does next.
#[derive(Debug)]
pub enum WindowsCreateAction {
    /// Find out whether WSL 2 is installed (answer `Ok(true)` or `Ok(false)`).
    AskWslInstalled,
    /// Create the WSL distribution.
    CreateDistro,
    /// Start the WSL distribution.
    StartDistro,
    /// Install Docker in the WSL distribution.
    InstallDocker,
    /// Find out whether Hyper-V is enabled (answer `Ok(true)` or `Ok(false)`).
    AskHyperVEnabled,
    /// Create the Hyper-V machine `name`.
    CreateVm { name: String, memory_mb: u32, disk_gb: u32 },
    /// Share the host folder `host` as `container`.
    AddMount { host: String, container: String },
    /// Proxy the host port `host` to the container port `container`.
    MapPort { host: u16, container: u16 },
    /// Record the container: it is created.
    Record(Container),
    /// Give up with this error.
    Fail(DockerError),
}

/// The view of an action; a failure by the reason of its runtime error.
pub enum WindowsActionView {
    AskWslInstalled,
    CreateDistro,
    StartDistro,
    InstallDocker,
    AskHyperVEnabled,
    CreateVm(Seq<char>, u32, u32),
    AddMount(Seq<char>, Seq<char>),
    MapPort(u16, u16),
    Record(ContainerView),
    Fail(Seq<char>),
}

/// `a` is the action that `v` describes; a failure is a runtime error with
/// the reason `v` gives.
pub open spec fn action_is(a: WindowsCreateAction, v: WindowsActionView) -> bool {
    match v {
        WindowsActionView::AskWslInstalled => a is AskWslInstalled,
        WindowsActionView::CreateDistro => a is CreateDistro,
        WindowsActionView::StartDistro => a is StartDistro,
        WindowsActionView::InstallDocker => a is InstallDocker,
        WindowsActionView::AskHyperVEnabled => a is AskHyperVEnabled,
        WindowsActionView::CreateVm(n, m, d) => a matches WindowsCreateAction::CreateVm { name, memory_mb, disk_gb }
            && name@ == n && memory_mb == m && disk_gb == d,
        WindowsActionView::AddMount(h, c) => a matches WindowsCreateAction::AddMount { host, container } && host@
            == h && container@ == c,
        WindowsActionView::MapPort(h, c) => a matches WindowsCreateAction::MapPort { host, container } && host == h
            && container == c,
        WindowsActionView::Record(c) => a matches WindowsCreateAction::Record(x) && x.deep_view() == c,
        WindowsActionView::Fail(m) => a matches WindowsCreateAction::Fail(e) && (*e.kind matches DockerErrorKind::RuntimeError {
            reason,
        } && reason@ == m),
    }
}

/// The first volume from position `i` on that is written `host:container`
/// (split at its first `:`): its position and both paths.
pub open spec fn next_mount(volumes: Seq<Seq<char>>, i: int) -> Option<(int, Seq<char>, Seq<char>)>
    decreases volumes.len() - i,
{
    if i < 0 || i >= volumes.len() {
        None
    } else {
        match split_once_spec(volumes[i], ':') {
            Some((h, c)) => Some((i, h, c)),
            None => next_mount(volumes, i + 1),
        }
    }
}

/// The ports of a publication written `host:container` with both sides
/// 16-bit numbers.
pub open spec fn port_pair(p: Seq<char>) -> Option<(u16, u16)> {
    match split_once_spec(p, ':') {
        Some((h, c)) => match (parse_u16_spec(h), parse_u16_spec(c)) {
            (Some(hp), Some(cp)) => Some((hp, cp)),
            _ => None,
        },
        None => None,
    }
}

/// The first publication from position `i` on that names a pair of ports:
/// its position and the ports.
pub open spec fn next_port(ports: Seq<Seq<char>>, i: int) -> Option<(int, u16, u16)>
    decreases ports.len() - i,
{
    if i < 0 || i >= ports.len() {
        None
    } else {
        match port_pair(ports[i]) {
            Some((h, c)) => Some((i, h, c)),
            None => next_port(ports, i + 1),
        }
    }
}

/// The container as recorded: as requested, and created.
pub open spec fn recorded(c: ContainerView) -> ContainerView {
    (c.0, c.1, c.2, ContainerStatus::Created, c.4, c.5, c.6, c.7, c.8, c.9, c.10, c.11)
}

/// Going on with the port publications from position `i`: proxy the next
/// pair of ports, or record the container when none is left.
pub open spec fn ports_from(c: ContainerView, i: int) -> (WindowsCreateStep, WindowsActionView) {
    match next_port(c.4, i) {
        Some((j, h, p)) => (WindowsCreateStep::Port(j as usize), WindowsActionView::MapPort(h, p)),
        None => (WindowsCreateStep::Done, WindowsActionView::Record(recorded(c))),
    }
}

/// Going on with the volumes from position `i`: share the next folder, or
/// go on with the ports when none is left.
pub open spec fn mounts_from(c: ContainerView, i: int) -> (WindowsCreateStep, WindowsActionView) {
    match next_mount(c.6, i) {
        Some((j, h, p)) => (WindowsCreateStep::Mount(j as usize), WindowsActionView::AddMount(h, p)),
        None => ports_from(c, 0),
    }
}

/// Giving up with the runtime error `message`.
pub open spec fn fail_with(message: Seq<char>) -> (WindowsCreateStep, WindowsActionView) {
    (WindowsCreateStep::Done, WindowsActionView::Fail(message))
}

/// The message when neither WSL 2 nor Hyper-V can be used.
pub open spec fn no_hyperv_message() -> Seq<char> {
    "Hyper-V is not enabled. Please enable Hyper-V in Windows Features or install WSL 2."@
}

/// The next step and action of creating the container `c` (as requested;
/// its id names the Hyper-V machine) after `step` ended with `outcome`: an
/// answer `Ok(b)` to a question, `Ok(_)` for an action done, or the error
/// output of a failed one. A failed check counts as the answer no.
pub open spec fn windows_create_spec(
    step: WindowsCreateStep,
    outcome: Result<bool, Seq<char>>,
    c: ContainerView,
) -> (WindowsCreateStep, WindowsActionView) {
    match step {
        WindowsCreateStep::Start => (WindowsCreateStep::CheckWsl, WindowsActionView::AskWslInstalled),
        WindowsCreateStep::CheckWsl => if outcome == Ok::<bool, Seq<char>>(true) {
            (WindowsCreateStep::CreateDistro, WindowsActionView::CreateDistro)
        } else {
            (WindowsCreateStep::CheckHyperV, WindowsActionView::AskHyperVEnabled)
        },
        WindowsCreateStep::CreateDistro => match outcome {
            Ok(_) => (WindowsCreateStep::StartDistro, WindowsActionView::StartDistro),
            Err(e) => fail_with("Failed to create WSL distro: "@ + e),
        },
        WindowsCreateStep::StartDistro => match outcome {
            Ok(_) => (WindowsCreateStep::InstallDocker, WindowsActionView::InstallDocker),
            Err(e) => fail_with("Failed to start WSL distro: "@ + e),
        },
        WindowsCreateStep::InstallDocker => match outcome {
            Ok(_) => mounts_from(c, 0),
            Err(e) => fail_with("Failed to install Docker in WSL: "@ + e),
        },
        WindowsCreateStep::CheckHyperV => if outcome == Ok::<bool, Seq<char>>(true) {
            (WindowsCreateStep::CreateVm, WindowsActionView::CreateVm(c.0, 2048, 20))
        } else {
            fail_with(no_hyperv_message())
        },
        WindowsCreateStep::CreateVm => match outcome {
            Ok(_) => mounts_from(c, 0),
            Err(e) => fail_with("Failed to create Hyper-V VM: "@ + e),
        },
        WindowsCreateStep::Mount(i) => match outcome {
            Ok(_) => mounts_from(c, i + 1),
            Err(e) => fail_with("Failed to add mount: "@ + e),
        },
        WindowsCreateStep::Port(i) => match outcome {
            Ok(_) => ports_from(c, i + 1),
            Err(e) => fail_with("Failed to configure port mapping: "@ + e),
        },
        WindowsCreateStep::Done => (WindowsCreateStep::Done, WindowsActionView::Record(recorded(c))),
    }
}

/// The outcome of a step, with its error output as text.
pub open spec fn outcome_view(o: Result<bool, String>) -> Result<bool, Seq<char>> {
    match o {
        Ok(b) => Ok(b),
        Err(e) => Err(e@),
    }
}

/// Gives up with the runtime error `prefix` followed by `detail`.
fn fail_step(prefix: &str, detail: &str) -> (r: (WindowsCreateStep, WindowsCreateAction))
    ensures
        r.0 == WindowsCreateStep::Done,
        action_is(r.1, WindowsActionView::Fail(prefix@ + detail@)),
{
    let m = concat_str(prefix, detail);
    proof {
        reveal_strlit("");
    }
    (WindowsCreateStep::Done, WindowsCreateAction::Fail(DockerError::runtime_error(m.as_str())))
}

/// The container `c`, recorded as created.
fn record_step(c: &Container) -> (r: (WindowsCreateStep, WindowsCreateAction))
    ensures
        r.0 == WindowsCreateStep::Done,
        action_is(r.1, WindowsActionView::Record(recorded(c.deep_view()))),
{
    let mut x = copy_container(c);
    x.status = ContainerStatus::Created;
    (WindowsCreateStep::Done, WindowsCreateAction::Record(x))
}

/// Goes on with the port publications of `c` from position `start`.
fn ports_step(c: &Container, start: usize) -> (r: (WindowsCreateStep, WindowsCreateAction))
    ensures
        r.0 == ports_from(c.deep_view(), start as int).0,
        action_is(r.1, ports_from(c.deep_view(), start as int).1),
{
    let ghost ps = c.ports.deep_view();
    let mut i: usize = start;
    while i < c.ports.len()
        invariant
            start <= i,
            ps == c.ports.deep_view(),
            next_port(ps, start as int) == next_port(ps, i as int),
        decreases c.ports.len() - i,
    {
        assert(ps[i as int] == c.ports@[i as int]@);
        let cs = chars_of(c.ports[i].as_str());
        match split_once_chars(&cs, ':') {
            Some((h, p)) => {
                let hs = string_from_chars(&h);
                let pstr = string_from_chars(&p);
                match (parse_u16(hs.as_str()), parse_u16(pstr.as_str())) {
                    (Some(hp), Some(cp)) => {
                        return (WindowsCreateStep::Port(i), WindowsCreateAction::MapPort { host: hp, container: cp });
                    },
                    _ => {},
                }
            },
            None => {},
        }
        i = i + 1;
    }
    record_step(c)
}

/// Goes on with the volumes of `c` from position `start`.
fn mounts_step(c: &Container, start: usize) -> (r: (WindowsCreateStep, WindowsCreateAction))
    ensures
        r.0 == mounts_from(c.deep_view(), start as int).0,
        action_is(r.1, mounts_from(c.deep_view(), start as int).1),
{
    let ghost vs = c.volumes.deep_view();
    let mut i: usize = start;
    while i < c.volumes.len()
        invariant
            start <= i,
            vs == c.volumes.deep_view(),
            next_mount(vs, start as int) == next_mount(vs, i as int),
        decreases c.volumes.len() - i,
    {
        assert(vs[i as int] == c.volumes@[i as int]@);
        let cs = chars_of(c.volumes[i].as_str());
        match split_once_chars(&cs, ':') {
            Some((h, p)) => {
                return (
                    WindowsCreateStep::Mount(i),
                    WindowsCreateAction::AddMount { host: string_from_chars(&h), container: string_from_chars(&p) },
                );
            },
            None => {},
        }
        i = i + 1;
    }
    ports_step(c, 0)
}

/// The next step and action of creating the container `container` on
/// Windows after `step` ended with `outcome`, as `windows_create_spec`
/// says.
pub fn windows_create_next(step: WindowsCreateStep, outcome: &Result<bool, String>, container: &Container) -> (r: (
    WindowsCreateStep,
    WindowsCreateAction,
))
    ensures
        r.0 == windows_create_spec(step, outcome_view(*outcome), container.deep_view()).0,
        action_is(r.1, windows_create_spec(step, outcome_view(*outcome), container.deep_view()).1),
{
    proof {
        reveal_strlit("Hyper-V is not enabled. Please enable Hyper-V in Windows Features or install WSL 2.");
        reveal_strlit("");
        assert(no_hyperv_message() + ""@ =~= no_hyperv_message());
    }
    match step {
        WindowsCreateStep::Start => (WindowsCreateStep::CheckWsl, WindowsCreateAction::AskWslInstalled),
        WindowsCreateStep::CheckWsl => match outcome {
            Ok(true) => (WindowsCreateStep::CreateDistro, WindowsCreateAction::CreateDistro),
            _ => (WindowsCreateStep::CheckHyperV, WindowsCreateAction::AskHyperVEnabled),
        },
        WindowsCreateStep::CreateDistro => match outcome {
            Ok(_) => (WindowsCreateStep::StartDistro, WindowsCreateAction::StartDistro),
            Err(e) => fail_step("Failed to create WSL distro: ", e.as_str()),
        },
        WindowsCreateStep::StartDistro => match outcome {
            Ok(_) => (WindowsCreateStep::InstallDocker, WindowsCreateAction::InstallDocker),
            Err(e) => fail_step("Failed to start WSL distro: ", e.as_str()),
        },
        WindowsCreateStep::InstallDocker => match outcome {
            Ok(_) => mounts_step(container, 0),
            Err(e) => fail_step("Failed to install Docker in WSL: ", e.as_str()),
        },
        WindowsCreateStep::CheckHyperV => match outcome {
            Ok(true) => (
                WindowsCreateStep::CreateVm,
                WindowsCreateAction::CreateVm { name: container.id.clone(), memory_mb: 2048, disk_gb: 20 },
            ),
            _ => fail_step(
                "Hyper-V is not enabled. Please enable Hyper-V in Windows Features or install WSL 2.",
                "",
            ),
        },
        WindowsCreateStep::CreateVm => match outcome {
            Ok(_) => mounts_step(container, 0),
            Err(e) => fail_step("Failed to create Hyper-V VM: ", e.as_str()),
        },
        WindowsCreateStep::Mount(i) => match outcome {
            Ok(_) => {
                if i < usize::MAX {
                    mounts_step(container, i + 1)
                } else {
                    let n = container.volumes.len();
                    assert(container.volumes.deep_view().len() == n);
                    assert(next_mount(container.volumes.deep_view(), i + 1) is None);
                    ports_step(container, 0)
                }
            },
            Err(e) => fail_step("Failed to add mount: ", e.as_str()),
        },
        WindowsCreateStep::Port(i) => match outcome {
            Ok(_) => {
                if i < usize::MAX {
                    ports_step(container, i + 1)
                } else {
                    let n = container.ports.len();
                    assert(container.ports.deep_view().len() == n);
                    assert(next_port(container.ports.deep_view(), i + 1) is None);
                    record_step(container)
                }
            },
            Err(e) => fail_step("Failed to configure port mapping: ", e.as_str()),
        },
        WindowsCreateStep::Done => record_step(container),
    }
}

// ---------------------------------------------------------------------------
// Starting, stopping, deleting, preparing.

/// An operation of the Windows engine besides creation.
#[derive(Debug, Clone, Copy, PartialEq, Eq, Structural)]
pub enum WindowsOp {
    /// Start a container.
    Start,
    /// Stop a container.
    Stop,
    /// Delete a container.
    Delete,
    /// Prepare the engine.
    Initialize,
}

/// Where an operation stands: the step whose outcome is handed back next.
#[derive(Debug, Clone, Copy, PartialEq, Eq, Structural)]
pub enum WindowsOpStep {
    /// Nothing asked yet.
    Start,
    /// Asked whether WSL 2 is installed.
    CheckWsl,
    /// Asked whether Hyper-V is enabled.
    CheckHyperV,
    /// Acting on the WSL distribution.
    Distro,
    /// Acting on the Hyper-V machine.
    Vm,
    /// Binding the shared folder at this position inside WSL.
    Mount(usize),
    /// Configuring the WSL network.
    Network,
    /// Removing the port proxy of the publication at this position.
    Port(usize),
    /// Finished.
    Done,
}

/// What the caller does next in an operation.
#[derive(Debug)]
pub enum WindowsOpAction {
    /// Find out whether WSL 2 is installed (answer `Ok(true)` or `Ok(false)`).
    AskWslInstalled,
    /// Find out whether Hyper-V is enabled (answer `Ok(true)` or `Ok(false)`).
    AskHyperVEnabled,
    /// Create the WSL distribution.
    CreateDistro,
    /// Start the WSL distribution.
    StartDistro,
    /// Stop the WSL distribution.
    StopDistro,
    /// Start the Hyper-V machine of the container.
    StartVm(String),
    /// Stop the Hyper-V machine of the container.
    StopVm(String),
    /// Remove the Hyper-V machine of the container.
    RemoveVm(String),
    /// Run this command with bash in the WSL distribution.
    WslExec(String),
    /// Configure the WSL network.
    ConfigureWslNetwork,
    /// Remove the proxy of this host port (its failure is ignored).
    RemovePortMapping(u16),
    /// The operation went through: update the container table.
    Finish,
    /// Give up with this error.
    Fail(DockerError),
}

/// The view of an operation's action; a failure by its runtime error's
/// reason.
pub enum WindowsOpActionView {
    AskWslInstalled,
    AskHyperVEnabled,
    CreateDistro,
    StartDistro,
    StopDistro,
    StartVm(Seq<char>),
    StopVm(Seq<char>),
    RemoveVm(Seq<char>),
    WslExec(Seq<char>),
    ConfigureWslNetwork,
    RemovePortMapping(u16),
    Finish,
    Fail(Seq<char>),
}

/// `a` is the action that `v` describes.
pub open spec fn op_action_is(a: WindowsOpAction, v: WindowsOpActionView) -> bool {
    match v {
        WindowsOpActionView::AskWslInstalled => a is AskWslInstalled,
        WindowsOpActionView::AskHyperVEnabled => a is AskHyperVEnabled,
        WindowsOpActionView::CreateDistro => a is CreateDistro,
        WindowsOpActionView::StartDistro => a is StartDistro,
        WindowsOpActionView::StopDistro => a is StopDistro,
        WindowsOpActionView::StartVm(n) => a matches WindowsOpAction::StartVm(x) && x@ == n,
        WindowsOpActionView::StopVm(n) => a matches WindowsOpAction::StopVm(x) && x@ == n,
        WindowsOpActionView::RemoveVm(n) => a matches WindowsOpAction::RemoveVm(x) && x@ == n,
        WindowsOpActionView::WslExec(c) => a matches WindowsOpAction::WslExec(x) && x@ == c,
        WindowsOpActionView::ConfigureWslNetwork => a is ConfigureWslNetwork,
        WindowsOpActionView::RemovePortMapping(p) => a matches WindowsOpAction::RemovePortMapping(x) && x == p,
        WindowsOpActionView::Finish => a is Finish,
        WindowsOpActionView::Fail(m) => a matches WindowsOpAction::Fail(e) && (*e.kind matches DockerErrorKind::RuntimeError {
            reason,
        } && reason@ == m),
    }
}

/// The command that binds the shared folder `m` (host path, container
/// path) inside WSL: `mkdir -p C && mount --bind W C`, with `W` the WSL
/// form of the host path.
pub open spec fn bind_command(m: (Seq<char>, Seq<char>)) -> Seq<char> {
    "mkdir -p "@ + m.1 + " && mount --bind "@ + ("/mnt/"@ + lowercase(wsl_form(m.0))) + " "@ + m.1
}

/// Going on with the shared folders from position `i`: bind the next one,
/// or configure the network when none is left.
pub open spec fn binds_from(mounts: Seq<(Seq<char>, Seq<char>)>, i: int) -> (WindowsOpStep, WindowsOpActionView) {
    if 0 <= i < mounts.len() {
        (WindowsOpStep::Mount(i as usize), WindowsOpActionView::WslExec(bind_command(mounts[i])))
    } else {
        (WindowsOpStep::Network, WindowsOpActionView::ConfigureWslNetwork)
    }
}

/// The host port of a publication written `host:container`, when it is a
/// 16-bit number.
pub open spec fn host_port_of(p: Seq<char>) -> Option<u16> {
    match split_once_spec(p, ':') {
        Some((h, _)) => parse_u16_spec(h),
        None => None,
    }
}

/// The first publication from position `i` on with a host port: its
/// position and the port.
pub open spec fn next_host_port(ports: Seq<Seq<char>>, i: int) -> Option<(int, u16)>
    decreases ports.len() - i,
{
    if i < 0 || i >= ports.len() {
        None
    } else {
        match host_port_of(ports[i]) {
            Some(h) => Some((i, h)),
            None => next_host_port(ports, i + 1),
        }
    }
}

/// Going on with removing port proxies from position `i`.
pub open spec fn unmaps_from(ports: Seq<Seq<char>>, i: int) -> (WindowsOpStep, WindowsOpActionView) {
    match next_host_port(ports, i) {
        Some((j, h)) => (WindowsOpStep::Port(j as usize), WindowsOpActionView::RemovePortMapping(h)),
        None => (WindowsOpStep::Done, WindowsOpActionView::Finish),
    }
}

/// Giving up an operation with the runtime error `message`.
pub open spec fn op_fail(message: Seq<char>) -> (WindowsOpStep, WindowsOpActionView) {
    (WindowsOpStep::Done, WindowsOpActionView::Fail(message))
}

/// What a failed action on the distribution is reported as.
pub open spec fn distro_failure(op: WindowsOp) -> Seq<char> {
    match op {
        WindowsOp::Start => "Failed to start WSL distro: "@,
        WindowsOp::Initialize => "Failed to create WSL distro: "@,
        _ => "Failed to stop WSL distro: "@,
    }
}

/// What a failed action on the machine is reported as.
pub open spec fn vm_failure(op: WindowsOp) -> Seq<char> {
    match op {
        WindowsOp::Stop => "Failed to stop Hyper-V VM: "@,
        WindowsOp::Delete => "Failed to remove Hyper-V VM: "@,
        _ => "Failed to start Hyper-V VM: "@,
    }
}

/// The next step and action of the operation `op` on the container `id`
/// (whose shared folders are `mounts` and publications `ports`) after
/// `step` ended with `outcome`. With WSL 2, starting starts the
/// distribution, binds each shared folder and configures the network;
/// stopping and deleting stop the distribution; preparing creates it.
/// Without it, starting, stopping and deleting start, stop and remove the
/// container's machine, and preparing needs Hyper-V. Deleting then removes
/// the proxy of each host port, ignoring failures. A failed check counts
/// as the answer no.
pub open spec fn windows_op_spec(
    op: WindowsOp,
    step: WindowsOpStep,
    outcome: Result<bool, Seq<char>>,
    id: Seq<char>,
    mounts: Seq<(Seq<char>, Seq<char>)>,
    ports: Seq<Seq<char>>,
) -> (WindowsOpStep, WindowsOpActionView) {
    match step {
        WindowsOpStep::Start => (WindowsOpStep::CheckWsl, WindowsOpActionView::AskWslInstalled),
        WindowsOpStep::CheckWsl => if outcome == Ok::<bool, Seq<char>>(true) {
            (
                WindowsOpStep::Distro,
                match op {
                    WindowsOp::Start => WindowsOpActionView::StartDistro,
                    WindowsOp::Initialize => WindowsOpActionView::CreateDistro,
                    _ => WindowsOpActionView::StopDistro,
                },
            )
        } else {
            match op {
                WindowsOp::Start => (WindowsOpStep::Vm, WindowsOpActionView::StartVm(id)),
                WindowsOp::Stop => (WindowsOpStep::Vm, WindowsOpActionView::StopVm(id)),
                WindowsOp::Delete => (WindowsOpStep::Vm, WindowsOpActionView::RemoveVm(id)),
                WindowsOp::Initialize => (WindowsOpStep::CheckHyperV, WindowsOpActionView::AskHyperVEnabled),
            }
        },
        WindowsOpStep::CheckHyperV => if outcome == Ok::<bool, Seq<char>>(true) {
            (WindowsOpStep::Done, WindowsOpActionView::Finish)
        } else {
            op_fail(no_hyperv_message())
        },
        WindowsOpStep::Distro => match outcome {
            Err(e) => op_fail(distro_failure(op) + e),
            Ok(_) => match op {
                WindowsOp::Start => binds_from(mounts, 0),
                WindowsOp::Delete => unmaps_from(ports, 0),
                _ => (WindowsOpStep::Done, WindowsOpActionView::Finish),
            },
        },
        WindowsOpStep::Vm => match outcome {
            Err(e) => op_fail(vm_failure(op) + e),
            Ok(_) => match op {
                WindowsOp::Delete => unmaps_from(ports, 0),
                _ => (WindowsOpStep::Done, WindowsOpActionView::Finish),
            },
        },
        WindowsOpStep::Mount(i) => match outcome {
            Err(e) => op_fail("Failed to mount volume in WSL: "@ + e),
            Ok(_) => binds_from(mounts, i + 1),
        },
        WindowsOpStep::Network => match outcome {
            Err(e) => op_fail("Failed to configure WSL network: "@ + e),
            Ok(_) => (WindowsOpStep::Done, WindowsOpActionView::Finish),
        },
        WindowsOpStep::Port(i) => unmaps_from(ports, i + 1),
        WindowsOpStep::Done => (WindowsOpStep::Done, WindowsOpActionView::Finish),
    }
}

/// Gives up an operation with the runtime error `prefix` and `detail`.
fn op_fail_step(prefix: &str, detail: &str) -> (r: (WindowsOpStep, WindowsOpAction))
    ensures
        r.0 == WindowsOpStep::Done,
        op_action_is(r.1, WindowsOpActionView::Fail(prefix@ + detail@)),
{
    let m = concat_str(prefix, detail);
    (WindowsOpStep::Done, WindowsOpAction::Fail(DockerError::runtime_error(m.as_str())))
}

/// Binds the shared folder at position `i`, or configures the network.
fn binds_step(shares: &FileShareManager, i: usize) -> (r: (WindowsOpStep, WindowsOpAction))
    ensures
        r.0 == binds_from(shares.mounts.deep_view(), i as int).0,
        op_action_is(r.1, binds_from(shares.mounts.deep_view(), i as int).1),
{
    if i < shares.mounts.len() {
        let (h, c) = (&shares.mounts[i].0, &shares.mounts[i].1);
        let w = shares.windows_to_wsl_path(h.as_str());
        let a = concat_str("mkdir -p ", c.as_str());
        let b = concat_str(a.as_str(), " && mount --bind ");
        let d = concat_str(b.as_str(), w.as_str());
        let e = concat_str(d.as_str(), " ");
        let cmd = concat_str(e.as_str(), c.as_str());
        assert(shares.mounts.deep_view()[i as int] == (h@, c@));
        (WindowsOpStep::Mount(i), WindowsOpAction::WslExec(cmd))
    } else {
        (WindowsOpStep::Network, WindowsOpAction::ConfigureWslNetwork)
    }
}

/// Removes the next port proxy from position `start`, or finishes.
fn unmaps_step(ports: &Vec<String>, start: usize) -> (r: (WindowsOpStep, WindowsOpAction))
    ensures
        r.0 == unmaps_from(ports.deep_view(), start as int).0,
        op_action_is(r.1, unmaps_from(ports.deep_view(), start as int).1),
{
    let ghost ps = ports.deep_view();
    let mut i: usize = start;
    while i < ports.len()
        invariant
            start <= i,
            ps == ports.deep_view(),
            next_host_port(ps, start as int) == next_host_port(ps, i as int),
        decreases ports.len() - i,
    {
        assert(ps[i as int] == ports@[i as int]@);
        let cs = chars_of(ports[i].as_str());
        match split_once_chars(&cs, ':') {
            Some((h, _)) => {
                let hs = string_from_chars(&h);
                match parse_u16(hs.as_str()) {
                    Some(hp) => {
                        return (WindowsOpStep::Port(i), WindowsOpAction::RemovePortMapping(hp));
                    },
                    None => {},
                }
            },
            None => {},
        }
        i = i + 1;
    }
    (WindowsOpStep::Done, WindowsOpAction::Finish)
}

/// The next step and action of the operation `op` on the container `id`,
/// whose shared folders `shares` holds and whose publications are `ports`,
/// after `step` ended with `outcome`, as `windows_op_spec` says.
pub fn windows_op_next(
    op: WindowsOp,
    step: WindowsOpStep,
    outcome: &Result<bool, String>,
    id: &str,
    shares: &FileShareManager,
    ports: &Vec<String>,
) -> (r: (WindowsOpStep, WindowsOpAction))
    ensures
        r.0 == windows_op_spec(op, step, outcome_view(*outcome), id@, shares.mounts.deep_view(), ports.deep_view()).0,
        op_action_is(
            r.1,
            windows_op_spec(op, step, outcome_view(*outcome), id@, shares.mounts.deep_view(), ports.deep_view()).1,
        ),
{
    proof {
        reveal_strlit("Hyper-V is not enabled. Please enable Hyper-V in Windows Features or install WSL 2.");
        reveal_strlit("");
        assert(no_hyperv_message() + ""@ =~= no_hyperv_message());
    }
    match step {
        WindowsOpStep::Start => (WindowsOpStep::CheckWsl, WindowsOpAction::AskWslInstalled),
        WindowsOpStep::CheckWsl => match outcome {
            Ok(true) => (
                WindowsOpStep::Distro,
                match op {
                    WindowsOp::Start => WindowsOpAction::StartDistro,
                    WindowsOp::Initialize => WindowsOpAction::CreateDistro,
                    _ => WindowsOpAction::StopDistro,
                },
            ),
            _ => match op {
                WindowsOp::Start => (WindowsOpStep::Vm, WindowsOpAction::StartVm(id.to_string())),
                WindowsOp::Stop => (WindowsOpStep::Vm, WindowsOpAction::StopVm(id.to_string())),
                WindowsOp::Delete => (WindowsOpStep::Vm, WindowsOpAction::RemoveVm(id.to_string())),
                WindowsOp::Initialize => (WindowsOpStep::CheckHyperV, WindowsOpAction::AskHyperVEnabled),
            },
        },
        WindowsOpStep::CheckHyperV => match outcome {
            Ok(true) => (WindowsOpStep::Done, WindowsOpAction::Finish),
            _ => op_fail_step(
                "Hyper-V is not enabled. Please enable Hyper-V in Windows Features or install WSL 2.",
                "",
            ),
        },
        WindowsOpStep::Distro => match outcome {
            Err(e) => match op {
                WindowsOp::Start => op_fail_step("Failed to start WSL distro: ", e.as_str()),
                WindowsOp::Initialize => op_fail_step("Failed to create WSL distro: ", e.as_str()),
                _ => op_fail_step("Failed to stop WSL distro: ", e.as_str()),
            },
            Ok(_) => match op {
                WindowsOp::Start => binds_step(shares, 0),
                WindowsOp::Delete => unmaps_step(ports, 0),
                _ => (WindowsOpStep::Done, WindowsOpAction::Finish),
            },
        },
        WindowsOpStep::Vm => match outcome {
            Err(e) => match op {
                WindowsOp::Stop => op_fail_step("Failed to stop Hyper-V VM: ", e.as_str()),
                WindowsOp::Delete => op_fail_step("Failed to remove Hyper-V VM: ", e.as_str()),
                _ => op_fail_step("Failed to start Hyper-V VM: ", e.as_str()),
            },
            Ok(_) => match op {
                WindowsOp::Delete => unmaps_step(ports, 0),
                _ => (WindowsOpStep::Done, WindowsOpAction::Finish),
            },
        },
        WindowsOpStep::Mount(i) => match outcome {
            Err(e) => op_fail_step("Failed to mount volume in WSL: ", e.as_str()),
            Ok(_) => {
                if i < usize::MAX {
                    binds_step(shares, i + 1)
                } else {
                    let n = shares.mounts.len();
                    assert(shares.mounts.deep_view().len() == n);
                    (WindowsOpStep::Network, WindowsOpAction::ConfigureWslNetwork)
                }
            },
        },
        WindowsOpStep::Network => match outcome {
            Err(e) => op_fail_step("Failed to configure WSL network: ", e.as_str()),
            Ok(_) => (WindowsOpStep::Done, WindowsOpAction::Finish),
        },
        WindowsOpStep::Port(i) => {
            if i < usize::MAX {
                unmaps_step(ports, i + 1)
            } else {
                let n = ports.len();
                assert(ports.deep_view().len() == n);
                assert(next_host_port(ports.deep_view(), i + 1) is None);
                (WindowsOpStep::Done, WindowsOpAction::Finish)
            }
        },
        WindowsOpStep::Done => (WindowsOpStep::Done, WindowsOpAction::Finish),
    }
}

} // verus!
