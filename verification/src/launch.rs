//! The ephemeral, fully resolved description of a virtual machine used to
//! build a hypervisor process invocation: hardware shape, drives with
//! their bus attachment, and network interfaces with their host-side
//! names and scripts.

use vstd::prelude::*;
use crate::mac::spec_mac;
use crate::registry::{
    CreateVirtualMachineView, DriveRecord, DriveRecordView, NetworkInterfaceRecord,
    NetworkInterfaceRecordView, RegistryView, VirtualMachineRecord, VirtualMachineRecordView,
    drive_of_vm, drive_records_for, has_vm, lemma_filter_all, lemma_filter_none, nic_of_vm,
    spec_create_vm, vm_drives, vm_nics, wf_registry,
};
use crate::storage::{VmStorage, VmStorageView, spec_drive_image_path};

verus! {

/// Whether a legacy-bus drive is attached as a disk or an optical drive.
#[derive(Debug, Clone, Copy)]
pub enum DiskMediaKind {
    Cdrom,
    Disk,
}

/// The device-attachment family of a drive, governing which device flags
/// it contributes to the argument vector.
#[derive(Debug, Clone, Copy)]
pub enum DriveBus {
    Ide { media_type: DiskMediaKind, boot_index: Option<u32> },
    VirtioBlk { boot_index: Option<u32> },
}

/// One resolved storage device of a launch request.
#[derive(Debug)]
pub struct DriveConfig {
    pub id: String,
    pub path: String,
    pub drive_media: DriveBus,
}

/// The mathematical value of a [`DriveConfig`].
#[verifier::ext_equal]
pub struct DriveConfigView {
    pub id: Seq<char>,
    pub path: Seq<char>,
    pub drive_media: DriveBus,
}

impl View for DriveConfig {
    type V = DriveConfigView;

    open spec fn view(&self) -> DriveConfigView {
        DriveConfigView { id: self.id@, path: self.path@, drive_media: self.drive_media }
    }
}

impl DeepView for DriveConfig {
    type V = DriveConfigView;

    open spec fn deep_view(&self) -> DriveConfigView {
        self.view()
    }
}

/// One resolved network interface of a launch request.
#[derive(Debug)]
pub struct NetworkConfig {
    pub id: String,
    pub mac: String,
    pub ifname: String,
    pub netdev_up_script: Option<String>,
    pub netdev_down_script: Option<String>,
}

/// The mathematical value of a [`NetworkConfig`].
#[verifier::ext_equal]
pub struct NetworkConfigView {
    pub id: Seq<char>,
    pub mac: Seq<char>,
    pub ifname: Seq<char>,
    pub netdev_up_script: Option<Seq<char>>,
    pub netdev_down_script: Option<Seq<char>>,
}

/// The mathematical value of an optional string.
pub open spec fn view_opt_string(s: Option<String>) -> Option<Seq<char>> {
    match s {
        Some(x) => Some(x@),
        None => None,
    }
}

impl View for NetworkConfig {
    type V = NetworkConfigView;

    open spec fn view(&self) -> NetworkConfigView {
        NetworkConfigView {
            id: self.id@,
            mac: self.mac@,
            ifname: self.ifname@,
            netdev_up_script: view_opt_string(self.netdev_up_script),
            netdev_down_script: view_opt_string(self.netdev_down_script),
        }
    }
}

impl DeepView for NetworkConfig {
    type V = NetworkConfigView;

    open spec fn deep_view(&self) -> NetworkConfigView {
        self.view()
    }
}

/// The fully resolved view of one virtual machine, joined from registry
/// records and resolved on-disk paths, built fresh for every runtime
/// operation and never cached beyond one operation.
#[derive(Debug)]
pub struct VmLaunchRequest {
    pub id: String,
    pub hostname: String,
    pub ovmf: bool,
    pub vcpu: u32,
    pub memory: u32,
    pub vnc: Option<String>,
    pub drives: Vec<DriveConfig>,
    pub networks: Vec<NetworkConfig>,
}

/// The mathematical value of a [`VmLaunchRequest`].
#[verifier::ext_equal]
pub struct VmLaunchRequestView {
    pub id: Seq<char>,
    pub hostname: Seq<char>,
    pub ovmf: bool,
    pub vcpu: u32,
    pub memory: u32,
    pub vnc: Option<Seq<char>>,
    pub drives: Seq<DriveConfigView>,
    pub networks: Seq<NetworkConfigView>,
}

impl View for VmLaunchRequest {
    type V = VmLaunchRequestView;

    open spec fn view(&self) -> VmLaunchRequestView {
        VmLaunchRequestView {
            id: self.id@,
            hostname: self.hostname@,
            ovmf: self.ovmf,
            vcpu: self.vcpu,
            memory: self.memory,
            vnc: view_opt_string(self.vnc),
            drives: self.drives.deep_view(),
            networks: self.networks.deep_view(),
        }
    }
}

/// The pair of scripts run when a tap interface comes up or goes down; a
/// runtime-wide setting, not a per-machine one.
#[derive(Debug)]
pub struct NetdevScripts {
    pub up: String,
    pub down: String,
}

/// The mathematical value of a [`NetdevScripts`].
#[verifier::ext_equal]
pub struct NetdevScriptsView {
    pub up: Seq<char>,
    pub down: Seq<char>,
}

impl View for NetdevScripts {
    type V = NetdevScriptsView;

    open spec fn view(&self) -> NetdevScriptsView {
        NetdevScriptsView { up: self.up@, down: self.down@ }
    }
}

/// The drive entry resolved from one drive record: the identifier and
/// bus are taken over, and the image path is resolved from the machine
/// and drive identifiers.
pub open spec fn spec_drive_config(st: VmStorageView, d: DriveRecordView) -> DriveConfigView {
    DriveConfigView {
        id: d.id,
        path: spec_drive_image_path(st.base, d.vm_id, d.id),
        drive_media: d.drive_bus,
    }
}

/// The network entry resolved from one interface record, with the
/// runtime-wide up and down scripts attached.
pub open spec fn spec_network_config(sc: NetdevScriptsView, n: NetworkInterfaceRecordView)
    -> NetworkConfigView {
    NetworkConfigView {
        id: n.id,
        mac: n.mac_address,
        ifname: n.ifname,
        netdev_up_script: Some(sc.up),
        netdev_down_script: Some(sc.down),
    }
}

/// The fully resolved launch request joined from a machine's records:
/// hardware taken from the machine row, the display spec always present,
/// drives and networks in registry order with resolved paths and scripts.
pub open spec fn spec_launch_request(
    vm: VirtualMachineRecordView,
    ds: Seq<DriveRecordView>,
    ns: Seq<NetworkInterfaceRecordView>,
    st: VmStorageView,
    sc: NetdevScriptsView,
) -> VmLaunchRequestView {
    VmLaunchRequestView {
        id: vm.id,
        hostname: vm.hostname,
        ovmf: vm.ovmf,
        vcpu: vm.vcpu,
        memory: vm.memory,
        vnc: Some(vm.vnc_display),
        drives: ds.map_values(|d: DriveRecordView| spec_drive_config(st, d)),
        networks: ns.map_values(|n: NetworkInterfaceRecordView| spec_network_config(sc, n)),
    }
}

/// Builds the ephemeral launch request for one machine from its registry
/// records, the storage layout and the netdev scripts. Built fresh for
/// every runtime operation; never cached.
pub fn build_launch_request(
    vm: &VirtualMachineRecord,
    drives: &Vec<DriveRecord>,
    nics: &Vec<NetworkInterfaceRecord>,
    storage: &VmStorage,
    scripts: &NetdevScripts,
) -> (r: VmLaunchRequest)
    ensures
        r@ == spec_launch_request(vm@, drives.deep_view(), nics.deep_view(), storage@, scripts@),
{
    let mut ds: Vec<DriveConfig> = Vec::new();
    let mut i: usize = 0;
    while i < drives.len()
        invariant
            i <= drives.len(),
            ds@.len() == i,
            forall|k: int|
                0 <= k < i ==> #[trigger] ds@[k]@ == spec_drive_config(
                    storage@,
                    drives.deep_view()[k],
                ),
        decreases drives.len() - i,
    {
        let d = &drives[i];
        ds.push(
            DriveConfig {
                id: d.id.clone(),
                path: storage.drive_image_path(d.vm_id.as_str(), d.id.as_str()),
                drive_media: d.drive_bus,
            },
        );
        i = i + 1;
    }
    let mut ns: Vec<NetworkConfig> = Vec::new();
    let mut j: usize = 0;
    while j < nics.len()
        invariant
            j <= nics.len(),
            ns@.len() == j,
            forall|k: int|
                0 <= k < j ==> #[trigger] ns@[k]@ == spec_network_config(
                    scripts@,
                    nics.deep_view()[k],
                ),
        decreases nics.len() - j,
    {
        let n = &nics[j];
        ns.push(
            NetworkConfig {
                id: n.id.clone(),
                mac: n.mac_address.clone(),
                ifname: n.ifname.clone(),
                netdev_up_script: Some(scripts.up.clone()),
                netdev_down_script: Some(scripts.down.clone()),
            },
        );
        j = j + 1;
    }
    let r = VmLaunchRequest {
        id: vm.id.clone(),
        hostname: vm.hostname.clone(),
        ovmf: vm.ovmf,
        vcpu: vm.vcpu,
        memory: vm.memory,
        vnc: Some(vm.vnc_display.clone()),
        drives: ds,
        networks: ns,
    };
    proof {
        assert(r@.drives =~= drives.deep_view().map_values(
            |d: DriveRecordView| spec_drive_config(storage@, d),
        ));
        assert(r@.networks =~= nics.deep_view().map_values(
            |n: NetworkInterfaceRecordView| spec_network_config(scripts@, n),
        ));
        assert(r@ =~= spec_launch_request(
            vm@,
            drives.deep_view(),
            nics.deep_view(),
            storage@,
            scripts@,
        ));
    }
    r
}

/// Round trip: the launch request built from a freshly created machine's
/// records reproduces every requested drive and network entry, in
/// request order — identifiers, bus and boot metadata unchanged, and
/// each interface's MAC derived from its allocated name.
pub proof fn lemma_create_launch_round_trip(
    v: RegistryView,
    input: CreateVirtualMachineView,
    st: VmStorageView,
    sc: NetdevScriptsView,
)
    requires
        wf_registry(v),
        !has_vm(v, input.id),
    ensures
        spec_create_vm(v, input) matches Ok(v2) ==> {
            let req = spec_launch_request(
                v2.vms.last(),
                vm_drives(v2, input.id),
                vm_nics(v2, input.id),
                st,
                sc,
            );
            &&& req.id == input.id
            &&& req.drives.len() == input.drives.len()
            &&& forall|i: int|
                0 <= i < input.drives.len() ==> (#[trigger] req.drives[i]).id == input.drives[i].id
                    && req.drives[i].drive_media == input.drives[i].drive_bus
            &&& req.networks.len() == input.network_interfaces.len()
            &&& forall|i: int|
                0 <= i < input.network_interfaces.len() ==> (#[trigger] req.networks[i]).id
                    == input.network_interfaces[i].id && req.networks[i].mac == spec_mac(
                    req.networks[i].ifname,
                )
        },
{
    broadcast use vstd::prelude::Seq::filter_distributes_over_add;

    if spec_create_vm(v, input) is Ok {
        let v2 = spec_create_vm(v, input)->Ok_0;
        crate::registry::lemma_create_vm_rows(v, input);
        assert forall|i: int| 0 <= i < v.drives.len() implies !drive_of_vm(input.id)(
            #[trigger] v.drives[i],
        ) by {
            assert(has_vm(v, v.drives[i].vm_id));
        }
        lemma_filter_none(v.drives, drive_of_vm(input.id));
        let newdrives = drive_records_for(input.id, input.drives);
        assert(v2.drives =~= v.drives + newdrives);
        assert forall|i: int| 0 <= i < newdrives.len() implies drive_of_vm(input.id)(
            #[trigger] newdrives[i],
        ) by {}
        lemma_filter_all(newdrives, drive_of_vm(input.id));
        assert(vm_drives(v2, input.id) =~= newdrives);

        assert forall|i: int| 0 <= i < v.nics.len() implies !nic_of_vm(input.id)(
            #[trigger] v.nics[i],
        ) by {
            assert(has_vm(v, v.nics[i].vm_id));
        }
        lemma_filter_none(v.nics, nic_of_vm(input.id));
        let newnics = v2.nics.skip(v.nics.len() as int);
        assert(v2.nics =~= v.nics + newnics);
        assert forall|i: int| 0 <= i < newnics.len() implies nic_of_vm(input.id)(
            #[trigger] newnics[i],
        ) by {
            assert(v2.nics[v.nics.len() + i].vm_id == input.id);
        }
        lemma_filter_all(newnics, nic_of_vm(input.id));
        assert(vm_nics(v2, input.id) =~= newnics);

        let req = spec_launch_request(
            v2.vms.last(),
            vm_drives(v2, input.id),
            vm_nics(v2, input.id),
            st,
            sc,
        );
        assert forall|i: int| 0 <= i < input.drives.len() implies (#[trigger] req.drives[i]).id
            == input.drives[i].id && req.drives[i].drive_media == input.drives[i].drive_bus by {
            assert(req.drives[i] == spec_drive_config(st, newdrives[i]));
        }
        assert forall|i: int| 0 <= i < input.network_interfaces.len() implies (
        #[trigger] req.networks[i]).id == input.network_interfaces[i].id && req.networks[i].mac
            == spec_mac(req.networks[i].ifname) by {
            assert(req.networks[i] == spec_network_config(sc, newnics[i]));
            assert(newnics[i] == v2.nics[v.nics.len() + i]);
        }
    }
}

} // verus!
