//! The Windows virtualization hosts: the PowerShell scripts that manage
//! Hyper-V machines and the `wsl` invocations that manage the WSL
//! distribution, and how their outputs are read (the caller runs them).
use vstd::prelude::*;
use crate::runtime::{HyperVManager, Wsl2Manager};
use crate::text::{
    append_chars, append_str, char_vecs, chars_of, contains_chars, contains_spec, decimal, decimal_chars,
    split_chars, split_spec, string_from_chars, trim_chars, trim_spec,
};

verus! {

broadcast use vstd::string::group_string_axioms;

/// The error of a failed command: `Failed to WHAT: ` and its error output.
pub open spec fn failure(what: Seq<char>, stderr: Seq<char>) -> Seq<char> {
    "Failed to "@ + what + ": "@ + stderr
}

/// The outcome of a command that does `what`: success, or its error
/// output under `Failed to WHAT: `.
pub fn command_outcome(what: &str, success: bool, stderr: &str) -> (r: Result<(), String>)
    ensures
        success ==> r is Ok,
        !success ==> (r matches Err(m) && m@ == failure(what@, stderr@)),
{
    if success {
        Ok(())
    } else {
        let mut v = chars_of("Failed to ");
        append_str(&mut v, what);
        append_str(&mut v, ": ");
        append_str(&mut v, stderr);
        Err(string_from_chars(&v))
    }
}

/// Rust's `str::lines`: the pieces between line feeds, without a last
/// empty piece and with a carriage return before a line feed removed.
pub open spec fn lines_spec(s: Seq<char>) -> Seq<Seq<char>> {
    let parts = split_spec(s, '\n');
    let kept = if parts.last().len() == 0 {
        parts.drop_last()
    } else {
        parts
    };
    kept.map_values(|p: Seq<char>| strip_cr(p))
}

/// `p` without one carriage return at its end.
pub open spec fn strip_cr(p: Seq<char>) -> Seq<char> {
    if p.len() > 0 && p.last() == '\r' {
        p.drop_last()
    } else {
        p
    }
}

/// The names listed one per line in `stdout`: the non-empty lines, trimmed.
pub open spec fn listed_names(lines: Seq<Seq<char>>) -> Seq<Seq<char>>
    decreases lines.len(),
{
    if lines.len() == 0 {
        seq![]
    } else {
        let rest = listed_names(lines.drop_last());
        if lines.last().len() == 0 {
            rest
        } else {
            rest.push(trim_spec(lines.last()))
        }
    }
}

/// The lines of `s`.
fn lines_of(s: &str) -> (r: Vec<Vec<char>>)
    ensures
        char_vecs(r@) == lines_spec(s@),
{
    let cs = chars_of(s);
    let mut parts = split_chars(&cs, '\n');
    proof {
        crate::text::lemma_split_nonempty(s@, '\n');
    }
    let ghost ps = char_vecs(parts@);
    let n = parts.len();
    assert(ps.last() == parts@[n - 1]@);
    if parts[n - 1].len() == 0 {
        let _ = parts.pop();
        assert(char_vecs(parts@) =~= ps.drop_last());
    }
    let ghost kept = char_vecs(parts@);
    let mut r: Vec<Vec<char>> = Vec::new();
    let mut i: usize = 0;
    while i < parts.len()
        invariant
            i <= parts.len(),
            kept == char_vecs(parts@),
            char_vecs(r@) == kept.take(i as int).map_values(|p: Seq<char>| strip_cr(p)),
        decreases parts.len() - i,
    {
        let mut p = parts[i].clone();
        assert(p@ == kept[i as int]);
        let m = p.len();
        if m > 0 && p[m - 1] == '\r' {
            let _ = p.pop();
        }
        let ghost before = r@;
        r.push(p);
        assert(char_vecs(r@) =~= char_vecs(before).push(strip_cr(kept[i as int])));
        assert(kept.take(i + 1).map_values(|p: Seq<char>| strip_cr(p)) =~= kept.take(i as int).map_values(
            |p: Seq<char>| strip_cr(p),
        ).push(strip_cr(kept[i as int])));
        i = i + 1;
    }
    assert(kept.take(parts.len() as int) =~= kept);
    r
}

/// The names listed one per line in `stdout`: the non-empty lines, trimmed.
pub fn names_of(stdout: &str) -> (r: Vec<String>)
    ensures
        r.deep_view() == listed_names(lines_spec(stdout@)),
{
    let lines = lines_of(stdout);
    let ghost ls = char_vecs(lines@);
    let mut r: Vec<String> = Vec::new();
    let mut i: usize = 0;
    while i < lines.len()
        invariant
            i <= lines.len(),
            ls == char_vecs(lines@),
            r.deep_view() == listed_names(ls.take(i as int)),
        decreases lines.len() - i,
    {
        assert(ls.take(i + 1).drop_last() =~= ls.take(i as int));
        assert(ls.take(i + 1).last() == lines@[i as int]@);
        if lines[i].len() > 0 {
            let t = trim_chars(&lines[i]);
            let ghost before = r.deep_view();
            r.push(string_from_chars(&t));
            assert(r.deep_view() =~= before.push(t@));
        }
        i = i + 1;
    }
    assert(ls.take(lines.len() as int) =~= ls);
    r
}

/// The script that tells whether the Hyper-V feature is enabled.
pub open spec fn hyperv_feature_script() -> Seq<char> {
    "Get-WindowsOptionalFeature -Online -FeatureName Microsoft-Hyper-V"@
}

/// The folder of the machines' virtual disks.
pub open spec fn vhd_folder() -> Seq<char> {
    "C:\\Hyper-V\\Virtual Hard Disks\\"@
}

impl HyperVManager {
    /// The script whose output tells whether Hyper-V is enabled.
    pub fn hyperv_feature_command() -> (r: String)
        ensures
            r@ == hyperv_feature_script(),
    {
        "Get-WindowsOptionalFeature -Online -FeatureName Microsoft-Hyper-V".to_string()
    }

    /// Whether the output of the feature script says Hyper-V is enabled.
    pub fn is_hyperv_enabled(&self, output: &str) -> (r: bool)
        ensures
            r == contains_spec(output@, "State : Enabled"@),
    {
        let o = chars_of(output);
        let p = chars_of("State : Enabled");
        contains_chars(&o, &p)
    }

    /// The script whose output is empty unless the machine `vm_name`
    /// exists.
    pub fn vm_exists_command(&self, vm_name: &str) -> (r: String)
        ensures
            r@ == "Get-VM -Name '"@ + self.vm_prefix@ + "-"@ + vm_name@ + "' -ErrorAction SilentlyContinue"@,
    {
        let full = self.full_vm_name(vm_name);
        let mut v = chars_of("Get-VM -Name '");
        append_str(&mut v, full.as_str());
        append_str(&mut v, "' -ErrorAction SilentlyContinue");
        string_from_chars(&v)
    }

    /// The script that creates the machine `vm_name` with `memory_mb` MB of
    /// memory and a new disk of `disk_size_gb` GB, given the output of the
    /// existence script; a machine that exists already is an error.
    pub fn create_vm(&self, vm_name: &str, memory_mb: u32, disk_size_gb: u32, existing: &str) -> (r: Result<
        String,
        String,
    >)
        ensures
            ({
                let full = self.vm_prefix@ + "-"@ + vm_name@;
                &&& existing@.len() > 0 ==> (r matches Err(m) && m@ == "Virtual machine '"@ + full
                    + "' already exists"@)
                &&& existing@.len() == 0 ==> (r matches Ok(cmd) && cmd@ == "New-VM -Name '"@ + full
                    + "' -MemoryStartupBytes "@ + decimal(memory_mb as nat) + "MB -NewVHDPath '"@
                    + vhd_folder() + full + ".vhdx' -NewVHDSizeBytes "@ + decimal(disk_size_gb as nat)
                    + "GB -Generation 2"@)
            }),
    {
        let full = self.full_vm_name(vm_name);
        if existing.unicode_len() > 0 {
            let mut v = chars_of("Virtual machine '");
            append_str(&mut v, full.as_str());
            append_str(&mut v, "' already exists");
            return Err(string_from_chars(&v));
        }
        let mut v = chars_of("New-VM -Name '");
        append_str(&mut v, full.as_str());
        append_str(&mut v, "' -MemoryStartupBytes ");
        let m = decimal_chars(memory_mb as u64);
        append_chars(&mut v, &m);
        append_str(&mut v, "MB -NewVHDPath '");
        append_str(&mut v, "C:\\Hyper-V\\Virtual Hard Disks\\");
        append_str(&mut v, full.as_str());
        append_str(&mut v, ".vhdx' -NewVHDSizeBytes ");
        let d = decimal_chars(disk_size_gb as u64);
        append_chars(&mut v, &d);
        append_str(&mut v, "GB -Generation 2");
        Ok(string_from_chars(&v))
    }

    /// The script that starts the machine `vm_name`.
    pub fn start_vm(&self, vm_name: &str) -> (r: String)
        ensures
            r@ == "Start-VM -Name '"@ + self.vm_prefix@ + "-"@ + vm_name@ + "'"@,
    {
        let full = self.full_vm_name(vm_name);
        let mut v = chars_of("Start-VM -Name '");
        append_str(&mut v, full.as_str());
        append_str(&mut v, "'");
        string_from_chars(&v)
    }

    /// The script that stops the machine `vm_name`.
    pub fn stop_vm(&self, vm_name: &str) -> (r: String)
        ensures
            r@ == "Stop-VM -Name '"@ + self.vm_prefix@ + "-"@ + vm_name@ + "' -Force"@,
    {
        let full = self.full_vm_name(vm_name);
        let mut v = chars_of("Stop-VM -Name '");
        append_str(&mut v, full.as_str());
        append_str(&mut v, "' -Force");
        string_from_chars(&v)
    }

    /// The scripts that remove the machine `vm_name`: first stop it (its
    /// failure is ignored), then remove it with its disk.
    pub fn remove_vm(&self, vm_name: &str) -> (r: (String, String))
        ensures
            ({
                let full = self.vm_prefix@ + "-"@ + vm_name@;
                &&& r.0@ == "Stop-VM -Name '"@ + full + "' -Force"@
                &&& r.1@ == "Remove-VM -Name '"@ + full + "' -Force; Remove-Item -Path '"@ + vhd_folder() + full
                    + ".vhdx' -Force -ErrorAction SilentlyContinue"@
            }),
    {
        let full = self.full_vm_name(vm_name);
        let stop = self.stop_vm(vm_name);
        let mut v = chars_of("Remove-VM -Name '");
        append_str(&mut v, full.as_str());
        append_str(&mut v, "' -Force; Remove-Item -Path '");
        append_str(&mut v, "C:\\Hyper-V\\Virtual Hard Disks\\");
        append_str(&mut v, full.as_str());
        append_str(&mut v, ".vhdx' -Force -ErrorAction SilentlyContinue");
        (stop, string_from_chars(&v))
    }

    /// The script that lists the names of the manager's machines.
    pub fn list_vms(&self) -> (r: String)
        ensures
            r@ == "Get-VM | Where-Object { $_.Name -like '"@ + self.vm_prefix@
                + "*' } | Select-Object -ExpandProperty Name"@,
    {
        let mut v = chars_of("Get-VM | Where-Object { $_.Name -like '");
        append_str(&mut v, self.vm_prefix.as_str());
        append_str(&mut v, "*' } | Select-Object -ExpandProperty Name");
        string_from_chars(&v)
    }

    /// The script that tells the state of the machine `vm_name`.
    pub fn get_vm_status(&self, vm_name: &str) -> (r: String)
        ensures
            r@ == "Get-VM -Name '"@ + self.vm_prefix@ + "-"@ + vm_name@ + "' | Select-Object -ExpandProperty State"@,
    {
        let full = self.full_vm_name(vm_name);
        let mut v = chars_of("Get-VM -Name '");
        append_str(&mut v, full.as_str());
        append_str(&mut v, "' | Select-Object -ExpandProperty State");
        string_from_chars(&v)
    }

    /// The state of a machine as its status script printed it.
    pub fn vm_status_of(stdout: &str) -> (r: String)
        ensures
            r@ == trim_spec(stdout@),
    {
        let cs = chars_of(stdout);
        let t = trim_chars(&cs);
        string_from_chars(&t)
    }
}

impl Wsl2Manager {
    /// Whether the listing of distributions (`wsl -l -v`) names the
    /// manager's distribution.
    pub fn is_distro_exists(&self, listing: &str) -> (r: bool)
        ensures
            r == contains_spec(listing@, self.distro_name@),
    {
        let l = chars_of(listing);
        let d = chars_of(self.distro_name.as_str());
        contains_chars(&l, &d)
    }

    /// The arguments of `wsl` that create the distribution, or none when
    /// the listing shows it exists already.
    pub fn create_distro(&self, listing: &str) -> (r: Option<Vec<String>>)
        ensures
            contains_spec(listing@, self.distro_name@) ==> r is None,
            !contains_spec(listing@, self.distro_name@) ==> (r matches Some(args) && args.deep_view() == seq![
                "--install"@,
                "Ubuntu"@,
                "--distribution"@,
                self.distro_name@,
            ]),
    {
        if self.is_distro_exists(listing) {
            return None;
        }
        let mut args: Vec<String> = Vec::new();
        args.push("--install".to_string());
        args.push("Ubuntu".to_string());
        args.push("--distribution".to_string());
        args.push(self.distro_name.clone());
        assert(args.deep_view() =~= seq!["--install"@, "Ubuntu"@, "--distribution"@, self.distro_name@]);
        Some(args)
    }

    /// The arguments of `wsl` that start the distribution.
    pub fn start_distro(&self) -> (r: Vec<String>)
        ensures
            r.deep_view() == seq!["-d"@, self.distro_name@, "echo"@, "WSL distro started"@],
    {
        let mut args: Vec<String> = Vec::new();
        args.push("-d".to_string());
        args.push(self.distro_name.clone());
        args.push("echo".to_string());
        args.push("WSL distro started".to_string());
        assert(args.deep_view() =~= seq!["-d"@, self.distro_name@, "echo"@, "WSL distro started"@]);
        args
    }

    /// The arguments of `wsl` that stop the distribution.
    pub fn stop_distro(&self) -> (r: Vec<String>)
        ensures
            r.deep_view() == seq!["--terminate"@, self.distro_name@],
    {
        let mut args: Vec<String> = Vec::new();
        args.push("--terminate".to_string());
        args.push(self.distro_name.clone());
        assert(args.deep_view() =~= seq!["--terminate"@, self.distro_name@]);
        args
    }

    /// The arguments of `wsl` that run `command` with bash in the
    /// distribution.
    pub fn exec_command(&self, command: &str) -> (r: Vec<String>)
        ensures
            r.deep_view() == seq!["-d"@, self.distro_name@, "bash"@, "-c"@, command@],
    {
        let mut args: Vec<String> = Vec::new();
        args.push("-d".to_string());
        args.push(self.distro_name.clone());
        args.push("bash".to_string());
        args.push("-c".to_string());
        args.push(command.to_string());
        assert(args.deep_view() =~= seq!["-d"@, self.distro_name@, "bash"@, "-c"@, command@]);
        args
    }

    /// The outcome of a command run in the distribution: its output,
    /// trimmed, or its error output under `Failed to execute command: `.
    pub fn exec_outcome(success: bool, stdout: &str, stderr: &str) -> (r: Result<String, String>)
        ensures
            success ==> (r matches Ok(o) && o@ == trim_spec(stdout@)),
            !success ==> (r matches Err(m) && m@ == failure("execute command"@, stderr@)),
    {
        if success {
            let cs = chars_of(stdout);
            let t = trim_chars(&cs);
            Ok(string_from_chars(&t))
        } else {
            match command_outcome("execute command", false, stderr) {
                Err(m) => Err(m),
                Ok(()) => Err(String::new()),
            }
        }
    }
}

/// The Hyper-V switch that connects the containers' machine to the host.
#[derive(Debug)]
pub struct NetworkManager {
    pub network_name: String,
}

/// The address of the WSL distribution on the containers' switch.
pub open spec fn wsl_network_script() -> Seq<char> {
    "sudo ip addr add 192.168.50.2/24 dev eth0 && sudo ip route add default via 192.168.50.1"@
}

impl NetworkManager {
    /// A manager of the switch `network_name`.
    pub fn new(network_name: &str) -> (m: Self)
        ensures
            m.network_name@ == network_name@,
    {
        NetworkManager { network_name: network_name.to_string() }
    }

    /// The script whose output is empty unless the switch exists.
    pub fn network_check_command(&self) -> (r: String)
        ensures
            r@ == "Get-NetAdapter | Where-Object { $_.Name -eq '"@ + self.network_name@ + "' }"@,
    {
        let mut v = chars_of("Get-NetAdapter | Where-Object { $_.Name -eq '");
        append_str(&mut v, self.network_name.as_str());
        append_str(&mut v, "' }");
        string_from_chars(&v)
    }

    /// The script that creates the switch, given the output of the check
    /// script; none when the switch exists.
    pub fn create_network(&self, existing: &str) -> (r: Option<String>)
        ensures
            existing@.len() > 0 ==> r is None,
            existing@.len() == 0 ==> (r matches Some(cmd) && cmd@ == "New-VMSwitch -Name '"@ + self.network_name@
                + "' -SwitchType Internal"@),
    {
        if existing.unicode_len() > 0 {
            return None;
        }
        let mut v = chars_of("New-VMSwitch -Name '");
        append_str(&mut v, self.network_name.as_str());
        append_str(&mut v, "' -SwitchType Internal");
        Some(string_from_chars(&v))
    }

    /// The script that gives the switch the address `ip_address` with the
    /// prefix length `subnet_mask`.
    pub fn configure_network(&self, ip_address: &str, subnet_mask: &str) -> (r: String)
        ensures
            r@ == "New-NetIPAddress -InterfaceAlias '"@ + self.network_name@ + "' -IPAddress "@ + ip_address@
                + " -PrefixLength "@ + subnet_mask@,
    {
        let mut v = chars_of("New-NetIPAddress -InterfaceAlias '");
        append_str(&mut v, self.network_name.as_str());
        append_str(&mut v, "' -IPAddress ");
        append_str(&mut v, ip_address);
        append_str(&mut v, " -PrefixLength ");
        append_str(&mut v, subnet_mask);
        string_from_chars(&v)
    }

    /// The arguments of `wsl` that put the distribution `wsl_distro` on the
    /// switch's subnet.
    pub fn configure_wsl_network(&self, wsl_distro: &str) -> (r: Vec<String>)
        ensures
            r.deep_view() == seq!["-d"@, wsl_distro@, "bash"@, "-c"@, wsl_network_script()],
    {
        let mut args: Vec<String> = Vec::new();
        args.push("-d".to_string());
        args.push(wsl_distro.to_string());
        args.push("bash".to_string());
        args.push("-c".to_string());
        args.push("sudo ip addr add 192.168.50.2/24 dev eth0 && sudo ip route add default via 192.168.50.1".to_string());
        assert(args.deep_view() =~= seq!["-d"@, wsl_distro@, "bash"@, "-c"@, wsl_network_script()]);
        args
    }

    /// The script that forwards `host_port` on all host addresses to
    /// `container_port` of the distribution.
    pub fn configure_port_mapping(&self, host_port: u16, container_port: u16) -> (r: String)
        ensures
            r@ == "netsh interface portproxy add v4tov4 listenport="@ + decimal(host_port as nat)
                + " listenaddress=0.0.0.0 connectport="@ + decimal(container_port as nat)
                + " connectaddress=192.168.50.2"@,
    {
        let mut v = chars_of("netsh interface portproxy add v4tov4 listenport=");
        let h = decimal_chars(host_port as u64);
        append_chars(&mut v, &h);
        append_str(&mut v, " listenaddress=0.0.0.0 connectport=");
        let c = decimal_chars(container_port as u64);
        append_chars(&mut v, &c);
        append_str(&mut v, " connectaddress=192.168.50.2");
        string_from_chars(&v)
    }

    /// The script that stops forwarding `host_port`.
    pub fn remove_port_mapping(&self, host_port: u16) -> (r: String)
        ensures
            r@ == "netsh interface portproxy delete v4tov4 listenport="@ + decimal(host_port as nat)
                + " listenaddress=0.0.0.0"@,
    {
        let mut v = chars_of("netsh interface portproxy delete v4tov4 listenport=");
        let h = decimal_chars(host_port as u64);
        append_chars(&mut v, &h);
        append_str(&mut v, " listenaddress=0.0.0.0");
        string_from_chars(&v)
    }
}

} // verus!
