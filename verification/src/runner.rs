//! The launch translator: turns a resolved launch request into the exact
//! process invocation for the hypervisor binary. Backing-store and
//! backend flags are immediately followed by the device flags that bind
//! to them, drives and networks keep request order, and the remote
//! display comes last.

use vstd::prelude::*;
use crate::config::Config;
use crate::launch::{DriveBus, NetworkConfigView, DriveConfigView, VmLaunchRequest, VmLaunchRequestView};
use crate::qemu_args::{
    KVM, spec_ide_device, spec_netdev_tap, spec_network_device, spec_virtio_blk_device,
};
use crate::text::{spec_dec, push_str_copy};

verus! {

/// The two flags attaching one drive: its backing file, then the
/// bus-specific device bound to it by identifier.
pub open spec fn spec_drive_args(d: DriveConfigView) -> Seq<Seq<char>> {
    seq!["-drive"@, "file="@ + d.path + ",if=none,id="@ + d.id] + (match d.drive_media {
        DriveBus::Ide { media_type, boot_index } => seq![
            "-device"@,
            spec_ide_device(d.id, boot_index, media_type),
        ],
        DriveBus::VirtioBlk { boot_index } => seq![
            "-device"@,
            spec_virtio_blk_device(d.id, boot_index),
        ],
    })
}

/// The drive flags of every drive, in request order.
pub open spec fn spec_drives_args(ds: Seq<DriveConfigView>) -> Seq<Seq<char>>
    decreases ds.len(),
{
    if ds.len() == 0 {
        Seq::empty()
    } else {
        spec_drive_args(ds[0]) + spec_drives_args(ds.drop_first())
    }
}

/// The two flag pairs attaching one network interface: its tap backend,
/// then the device bound to that backend with the interface's MAC.
pub open spec fn spec_network_args(n: NetworkConfigView) -> Seq<Seq<char>> {
    seq![
        "-netdev"@,
        spec_netdev_tap(n.id, n.netdev_up_script, n.netdev_down_script, n.ifname),
        "-device"@,
        spec_network_device(n.id, n.mac),
    ]
}

/// The network flags of every interface, in request order.
pub open spec fn spec_networks_args(ns: Seq<NetworkConfigView>) -> Seq<Seq<char>>
    decreases ns.len(),
{
    if ns.len() == 0 {
        Seq::empty()
    } else {
        spec_network_args(ns[0]) + spec_networks_args(ns.drop_first())
    }
}

/// The firmware pair when UEFI firmware is attached, and nothing
/// otherwise.
pub open spec fn spec_ovmf_args(ovmf: bool, code: Seq<char>, vars: Seq<char>) -> Seq<Seq<char>> {
    if ovmf {
        seq![
            "-drive"@,
            "if=pflash,format=raw,readonly=on,file="@ + code,
            "-drive"@,
            "if=pflash,format=raw,file="@ + vars,
        ]
    } else {
        Seq::empty()
    }
}

/// The remote-display flag with password authentication when a display
/// spec is present, and nothing otherwise.
pub open spec fn spec_vnc_args(vnc: Option<Seq<char>>) -> Seq<Seq<char>> {
    match vnc {
        Some(d) => seq!["-vnc"@, d + ",password=on"@],
        None => Seq::empty(),
    }
}

/// The whole process invocation for one launch request, in order: the
/// binary, machine acceleration, no default devices, the control socket,
/// the pidfile, daemonizing, name, memory, CPU count, the display
/// adapter, then optionally the firmware pair, then per drive its
/// backing file immediately followed by its device, then per network
/// interface its backend immediately followed by its device, then the
/// remote display.
pub open spec fn spec_qemu_command(
    bin: Seq<char>,
    code: Seq<char>,
    vars: Seq<char>,
    socket: Seq<char>,
    pidfile: Seq<char>,
    req: VmLaunchRequestView,
) -> Seq<Seq<char>> {
    seq![
        bin,
        "-enable-kvm"@,
        "-nodefaults"@,
        "-qmp"@,
        "unix:"@ + socket + ",server=on,wait=off"@,
        "-pidfile"@,
        pidfile,
        "-daemonize"@,
        "-name"@,
        req.hostname,
        "-m"@,
        spec_dec(req.memory as nat) + "M"@,
        "-cpu"@,
        "host"@,
        "-smp"@,
        spec_dec(req.vcpu as nat),
        "-device"@,
        "virtio-vga"@,
    ] + spec_ovmf_args(req.ovmf, code, vars) + spec_drives_args(req.drives) + spec_networks_args(
        req.networks,
    ) + spec_vnc_args(req.vnc)
}

proof fn lemma_drives_args_push(ds: Seq<DriveConfigView>, d: DriveConfigView)
    ensures
        spec_drives_args(ds.push(d)) == spec_drives_args(ds) + spec_drive_args(d),
    decreases ds.len(),
{
    if ds.len() == 0 {
        assert(ds.push(d).drop_first() =~= ds);
        assert(ds.push(d)[0] == d);
        assert(spec_drives_args(ds.push(d)) =~= spec_drives_args(ds) + spec_drive_args(d));
    } else {
        assert(ds.push(d).drop_first() =~= ds.drop_first().push(d));
        assert(ds.push(d)[0] == ds[0]);
        lemma_drives_args_push(ds.drop_first(), d);
        assert(spec_drives_args(ds.push(d)) =~= spec_drives_args(ds) + spec_drive_args(d));
    }
}

proof fn lemma_networks_args_push(ns: Seq<NetworkConfigView>, n: NetworkConfigView)
    ensures
        spec_networks_args(ns.push(n)) == spec_networks_args(ns) + spec_network_args(n),
    decreases ns.len(),
{
    if ns.len() == 0 {
        assert(ns.push(n).drop_first() =~= ns);
        assert(ns.push(n)[0] == n);
        assert(spec_networks_args(ns.push(n)) =~= spec_networks_args(ns) + spec_network_args(n));
    } else {
        assert(ns.push(n).drop_first() =~= ns.drop_first().push(n));
        assert(ns.push(n)[0] == ns[0]);
        lemma_networks_args_push(ns.drop_first(), n);
        assert(spec_networks_args(ns.push(n)) =~= spec_networks_args(ns) + spec_network_args(n));
    }
}

/// Everything fixed for one machine's runtime operations: the binary and
/// firmware paths, the control socket and pidfile the instance uses, and
/// the environment variable carrying the machine's identity.
#[derive(Debug)]
pub struct RunFactory {
    socket: String,
    pidfile: String,
    bin: String,
    ovmf_code: String,
    ovmf_vars: String,
    env_name: String,
}

/// The mathematical value of a [`RunFactory`].
#[verifier::ext_equal]
pub struct RunFactoryView {
    pub socket: Seq<char>,
    pub pidfile: Seq<char>,
    pub bin: Seq<char>,
    pub ovmf_code: Seq<char>,
    pub ovmf_vars: Seq<char>,
    pub env_name: Seq<char>,
}

impl View for RunFactory {
    type V = RunFactoryView;

    closed spec fn view(&self) -> RunFactoryView {
        RunFactoryView {
            socket: self.socket@,
            pidfile: self.pidfile@,
            bin: self.bin@,
            ovmf_code: self.ovmf_code@,
            ovmf_vars: self.ovmf_vars@,
            env_name: self.env_name@,
        }
    }
}

impl RunFactory {
    /// A factory for one machine: the control socket and pidfile live
    /// under the run directory, named after the machine.
    pub fn new(run_dir: &str, vm_id: &str, config: &Config, env_name: &str) -> (r: Self)
        ensures
            r@.socket == run_dir@ + "/"@ + vm_id@ + ".sock"@,
            r@.pidfile == run_dir@ + "/"@ + vm_id@ + ".pid"@,
            r@.bin == config@.cli.bin,
            r@.ovmf_code == config@.ovmf.code,
            r@.ovmf_vars == config@.ovmf.vars,
            r@.env_name == env_name@,
    {
        let mut socket: String = run_dir.to_owned();
        push_str_copy(&mut socket, "/");
        push_str_copy(&mut socket, vm_id);
        push_str_copy(&mut socket, ".sock");
        let mut pidfile: String = run_dir.to_owned();
        push_str_copy(&mut pidfile, "/");
        push_str_copy(&mut pidfile, vm_id);
        push_str_copy(&mut pidfile, ".pid");
        let r = RunFactory {
            socket,
            pidfile,
            bin: config.cli.bin.clone(),
            ovmf_code: config.ovmf.code.clone(),
            ovmf_vars: config.ovmf.vars.clone(),
            env_name: env_name.to_owned(),
        };
        proof {
            assert(r@.socket =~= run_dir@ + "/"@ + vm_id@ + ".sock"@);
            assert(r@.pidfile =~= run_dir@ + "/"@ + vm_id@ + ".pid"@);
        }
        r
    }

    /// The control-socket path of this machine's instance.
    pub fn get_socket_path(&self) -> (r: String)
        ensures
            r@ == self@.socket,
    {
        self.socket.clone()
    }

    /// The pidfile path of this machine's instance.
    pub fn get_pidfile_path(&self) -> (r: String)
        ensures
            r@ == self@.pidfile,
    {
        self.pidfile.clone()
    }

    /// The environment entry handed to the spawned process so that
    /// supporting scripts can identify which machine invoked them.
    pub fn env_pair(&self, vm: &VmLaunchRequest) -> (r: (String, String))
        ensures
            r.0@ == self@.env_name,
            r.1@ == vm@.id,
    {
        (self.env_name.clone(), vm.id.clone())
    }

    fn build_drives(qemu: KVM, vm: &VmLaunchRequest) -> (r: KVM)
        ensures
            r@ == qemu@ + spec_drives_args(vm@.drives),
    {
        let mut q = qemu;
        let ghost q0 = q@;
        let mut i: usize = 0;
        proof {
            assert(q@ =~= q0 + spec_drives_args(vm@.drives.take(0)));
        }
        while i < vm.drives.len()
            invariant
                i <= vm.drives.len(),
                vm@.drives.len() == vm.drives.len(),
                q@ == q0 + spec_drives_args(vm@.drives.take(i as int)),
            decreases vm.drives.len() - i,
        {
            let ghost pre = q@;
            let d = &vm.drives[i];
            q = q.drive(d.id.as_str(), d.path.as_str());
            match &d.drive_media {
                DriveBus::Ide { media_type, boot_index } => {
                    q = q.ide_device(d.id.as_str(), *boot_index, media_type);
                },
                DriveBus::VirtioBlk { boot_index } => {
                    q = q.virtio_blk(d.id.as_str(), *boot_index);
                },
            }
            i = i + 1;
            proof {
                assert(vm@.drives.take(i as int) =~= vm@.drives.take(i - 1).push(
                    vm@.drives[i - 1],
                ));
                lemma_drives_args_push(vm@.drives.take(i - 1), vm@.drives[i - 1]);
                assert(q@ =~= pre + spec_drive_args(vm@.drives[i - 1]));
                assert(q@ =~= q0 + spec_drives_args(vm@.drives.take(i as int)));
            }
        }
        proof {
            assert(vm@.drives.take(vm@.drives.len() as int) =~= vm@.drives);
        }
        q
    }

    fn add_networks(qemu: KVM, vm: &VmLaunchRequest) -> (r: KVM)
        ensures
            r@ == qemu@ + spec_networks_args(vm@.networks),
    {
        let mut q = qemu;
        let ghost q0 = q@;
        let mut i: usize = 0;
        proof {
            assert(q@ =~= q0 + spec_networks_args(vm@.networks.take(0)));
        }
        while i < vm.networks.len()
            invariant
                i <= vm.networks.len(),
                vm@.networks.len() == vm.networks.len(),
                q@ == q0 + spec_networks_args(vm@.networks.take(i as int)),
            decreases vm.networks.len() - i,
        {
            let ghost pre = q@;
            let n = &vm.networks[i];
            let up = match &n.netdev_up_script {
                Some(s) => Some(s.as_str()),
                None => None,
            };
            let down = match &n.netdev_down_script {
                Some(s) => Some(s.as_str()),
                None => None,
            };
            q = q.netdev_tap(n.id.as_str(), up, down, n.ifname.as_str());
            q = q.network_device(n.id.as_str(), n.mac.as_str());
            i = i + 1;
            proof {
                assert(vm@.networks.take(i as int) =~= vm@.networks.take(i - 1).push(
                    vm@.networks[i - 1],
                ));
                lemma_networks_args_push(vm@.networks.take(i - 1), vm@.networks[i - 1]);
                assert(q@ =~= pre + spec_network_args(vm@.networks[i - 1]));
                assert(q@ =~= q0 + spec_networks_args(vm@.networks.take(i as int)));
            }
        }
        proof {
            assert(vm@.networks.take(vm@.networks.len() as int) =~= vm@.networks);
        }
        q
    }

    fn add_uefi(&self, qemu: KVM, vm: &VmLaunchRequest) -> (r: KVM)
        ensures
            r@ == qemu@ + spec_ovmf_args(vm@.ovmf, self@.ovmf_code, self@.ovmf_vars),
    {
        if vm.ovmf {
            let r = qemu.ovmf(self.ovmf_code.as_str(), self.ovmf_vars.as_str());
            proof {
                assert(r@ =~= qemu@ + spec_ovmf_args(true, self@.ovmf_code, self@.ovmf_vars));
            }
            r
        } else {
            let r = qemu;
            proof {
                assert(r@ =~= qemu@ + spec_ovmf_args(false, self@.ovmf_code, self@.ovmf_vars));
            }
            r
        }
    }

    fn add_vnc(qemu: KVM, vm: &VmLaunchRequest) -> (r: KVM)
        ensures
            r@ == qemu@ + spec_vnc_args(vm@.vnc),
    {
        match &vm.vnc {
            Some(display) => {
                let r = qemu.vnc(display.as_str(), true);
                proof {
                    assert(r@ =~= qemu@ + spec_vnc_args(vm@.vnc));
                }
                r
            },
            None => {
                let r = qemu;
                proof {
                    assert(r@ =~= qemu@ + spec_vnc_args(vm@.vnc));
                }
                r
            },
        }
    }

    /// The exact process invocation launching this machine.
    pub fn build_qemu_command(&self, vm: &VmLaunchRequest) -> (r: Vec<String>)
        ensures
            r.deep_view() == spec_qemu_command(
                self@.bin,
                self@.ovmf_code,
                self@.ovmf_vars,
                self@.socket,
                self@.pidfile,
                vm@,
            ),
    {
        let mut qemu = KVM::new(self.bin.as_str())
            .enable_kvm()
            .nodefaults()
            .qmp(self.socket.as_str())
            .pidfile(self.pidfile.as_str())
            .daemonize()
            .name(vm.hostname.as_str())
            .memory(vm.memory)
            .smp(vm.vcpu)
            .virtio_vga();
        let ghost head = qemu@;
        proof {
            assert(head =~= seq![
                self@.bin,
                "-enable-kvm"@,
                "-nodefaults"@,
                "-qmp"@,
                "unix:"@ + self@.socket + ",server=on,wait=off"@,
                "-pidfile"@,
                self@.pidfile,
                "-daemonize"@,
                "-name"@,
                vm@.hostname,
                "-m"@,
                spec_dec(vm@.memory as nat) + "M"@,
                "-cpu"@,
                "host"@,
                "-smp"@,
                spec_dec(vm@.vcpu as nat),
                "-device"@,
                "virtio-vga"@,
            ]);
        }
        qemu = self.add_uefi(qemu, vm);
        qemu = Self::build_drives(qemu, vm);
        qemu = Self::add_networks(qemu, vm);
        qemu = Self::add_vnc(qemu, vm);
        let r = qemu.build();
        proof {
            assert(r.deep_view() =~= spec_qemu_command(
                self@.bin,
                self@.ovmf_code,
                self@.ovmf_vars,
                self@.socket,
                self@.pidfile,
                vm@,
            ));
        }
        r
    }
}

} // verus!
