//! The resource registry: the record of every virtual machine's declared
//! hardware, drives and network interfaces, plus the allocators that hand
//! out globally-unique display numbers and interface names. Allocation
//! scans are deterministic and minimal, so freed resources are reused.

use vstd::prelude::*;
use crate::Error;
use crate::launch::DriveBus;
use crate::mac::{get_mac, spec_mac};
use crate::text::{spec_dec, push_dec};

verus! {

/// Identity and hardware shape of one virtual machine.
#[derive(Debug)]
pub struct VirtualMachineRecord {
    pub id: String,
    pub hostname: String,
    pub vcpu: u32,
    pub memory: u32,
    pub ovmf: bool,
    pub vnc_display: String,
}

/// The mathematical value of a [`VirtualMachineRecord`].
#[verifier::ext_equal]
pub struct VirtualMachineRecordView {
    pub id: Seq<char>,
    pub hostname: Seq<char>,
    pub vcpu: u32,
    pub memory: u32,
    pub ovmf: bool,
    pub vnc_display: Seq<char>,
}

impl View for VirtualMachineRecord {
    type V = VirtualMachineRecordView;

    open spec fn view(&self) -> VirtualMachineRecordView {
        VirtualMachineRecordView {
            id: self.id@,
            hostname: self.hostname@,
            vcpu: self.vcpu,
            memory: self.memory,
            ovmf: self.ovmf,
            vnc_display: self.vnc_display@,
        }
    }
}

impl DeepView for VirtualMachineRecord {
    type V = VirtualMachineRecordView;

    open spec fn deep_view(&self) -> VirtualMachineRecordView {
        self.view()
    }
}

impl VirtualMachineRecord {
    /// An owned copy with the same value.
    pub fn duplicate(&self) -> (r: Self)
        ensures
            r@ == self@,
    {
        VirtualMachineRecord {
            id: self.id.clone(),
            hostname: self.hostname.clone(),
            vcpu: self.vcpu,
            memory: self.memory,
            ovmf: self.ovmf,
            vnc_display: self.vnc_display.clone(),
        }
    }
}

/// One storage device belonging to a virtual machine; the on-disk image
/// is located from `(vm_id, id)` by the storage collaborator, so only the
/// bus and boot metadata are recorded here.
#[derive(Debug)]
pub struct DriveRecord {
    pub vm_id: String,
    pub id: String,
    pub drive_bus: DriveBus,
}

/// The mathematical value of a [`DriveRecord`].
#[verifier::ext_equal]
pub struct DriveRecordView {
    pub vm_id: Seq<char>,
    pub id: Seq<char>,
    pub drive_bus: DriveBus,
}

impl View for DriveRecord {
    type V = DriveRecordView;

    open spec fn view(&self) -> DriveRecordView {
        DriveRecordView { vm_id: self.vm_id@, id: self.id@, drive_bus: self.drive_bus }
    }
}

impl DeepView for DriveRecord {
    type V = DriveRecordView;

    open spec fn deep_view(&self) -> DriveRecordView {
        self.view()
    }
}

impl DriveRecord {
    /// An owned copy with the same value.
    pub fn duplicate(&self) -> (r: Self)
        ensures
            r@ == self@,
    {
        DriveRecord { vm_id: self.vm_id.clone(), id: self.id.clone(), drive_bus: self.drive_bus }
    }
}

/// One virtual network interface: the host-visible tap name is the
/// primary key, and the MAC address is a stable function of it.
#[derive(Debug)]
pub struct NetworkInterfaceRecord {
    pub ifname: String,
    pub vm_id: String,
    pub id: String,
    pub mac_address: String,
}

/// The mathematical value of a [`NetworkInterfaceRecord`].
#[verifier::ext_equal]
pub struct NetworkInterfaceRecordView {
    pub ifname: Seq<char>,
    pub vm_id: Seq<char>,
    pub id: Seq<char>,
    pub mac_address: Seq<char>,
}

impl View for NetworkInterfaceRecord {
    type V = NetworkInterfaceRecordView;

    open spec fn view(&self) -> NetworkInterfaceRecordView {
        NetworkInterfaceRecordView {
            ifname: self.ifname@,
            vm_id: self.vm_id@,
            id: self.id@,
            mac_address: self.mac_address@,
        }
    }
}

impl DeepView for NetworkInterfaceRecord {
    type V = NetworkInterfaceRecordView;

    open spec fn deep_view(&self) -> NetworkInterfaceRecordView {
        self.view()
    }
}

impl NetworkInterfaceRecord {
    /// An owned copy with the same value.
    pub fn duplicate(&self) -> (r: Self)
        ensures
            r@ == self@,
    {
        NetworkInterfaceRecord {
            ifname: self.ifname.clone(),
            vm_id: self.vm_id.clone(),
            id: self.id.clone(),
            mac_address: self.mac_address.clone(),
        }
    }
}

/// A statically assigned IPv4 address bound to one interface.
#[derive(Debug)]
pub struct IPv4AddressRecord {
    pub address: String,
    pub ifname: String,
    pub netmask: u32,
    pub gateway: Option<String>,
}

/// The mathematical value of an [`IPv4AddressRecord`].
#[verifier::ext_equal]
pub struct IPv4AddressRecordView {
    pub address: Seq<char>,
    pub ifname: Seq<char>,
    pub netmask: u32,
    pub gateway: Option<Seq<char>>,
}

impl View for IPv4AddressRecord {
    type V = IPv4AddressRecordView;

    open spec fn view(&self) -> IPv4AddressRecordView {
        IPv4AddressRecordView {
            address: self.address@,
            ifname: self.ifname@,
            netmask: self.netmask,
            gateway: crate::launch::view_opt_string(self.gateway),
        }
    }
}

impl DeepView for IPv4AddressRecord {
    type V = IPv4AddressRecordView;

    open spec fn deep_view(&self) -> IPv4AddressRecordView {
        self.view()
    }
}

impl IPv4AddressRecord {
    /// An owned copy with the same value.
    pub fn duplicate(&self) -> (r: Self)
        ensures
            r@ == self@,
    {
        let gateway = match &self.gateway {
            Some(g) => Some(g.clone()),
            None => None,
        };
        IPv4AddressRecord {
            address: self.address.clone(),
            ifname: self.ifname.clone(),
            netmask: self.netmask,
            gateway,
        }
    }
}

/// The requested shape of a new virtual machine.
#[derive(Debug)]
pub struct CreateVirtualMachine {
    pub id: String,
    pub hostname: String,
    pub vcpu: u32,
    pub memory: u32,
    pub ovmf: bool,
    pub network_interfaces: Vec<CreateNetworkInterface>,
    pub drives: Vec<CreateDrive>,
}

/// One requested network interface; the tap name and MAC are allocated.
#[derive(Debug)]
pub struct CreateNetworkInterface {
    pub id: String,
}

/// One requested drive with its bus and boot metadata.
#[derive(Debug)]
pub struct CreateDrive {
    pub id: String,
    pub boot_order: Option<u32>,
    pub drive_bus: DriveBus,
}

/// The mathematical value of a [`CreateVirtualMachine`].
#[verifier::ext_equal]
pub struct CreateVirtualMachineView {
    pub id: Seq<char>,
    pub hostname: Seq<char>,
    pub vcpu: u32,
    pub memory: u32,
    pub ovmf: bool,
    pub network_interfaces: Seq<CreateNetworkInterfaceView>,
    pub drives: Seq<CreateDriveView>,
}

/// The mathematical value of a [`CreateNetworkInterface`].
#[verifier::ext_equal]
pub struct CreateNetworkInterfaceView {
    pub id: Seq<char>,
}

/// The mathematical value of a [`CreateDrive`].
#[verifier::ext_equal]
pub struct CreateDriveView {
    pub id: Seq<char>,
    pub boot_order: Option<u32>,
    pub drive_bus: DriveBus,
}

impl View for CreateNetworkInterface {
    type V = CreateNetworkInterfaceView;

    open spec fn view(&self) -> CreateNetworkInterfaceView {
        CreateNetworkInterfaceView { id: self.id@ }
    }
}

impl DeepView for CreateNetworkInterface {
    type V = CreateNetworkInterfaceView;

    open spec fn deep_view(&self) -> CreateNetworkInterfaceView {
        self.view()
    }
}

impl View for CreateDrive {
    type V = CreateDriveView;

    open spec fn view(&self) -> CreateDriveView {
        CreateDriveView { id: self.id@, boot_order: self.boot_order, drive_bus: self.drive_bus }
    }
}

impl DeepView for CreateDrive {
    type V = CreateDriveView;

    open spec fn deep_view(&self) -> CreateDriveView {
        self.view()
    }
}

impl View for CreateVirtualMachine {
    type V = CreateVirtualMachineView;

    open spec fn view(&self) -> CreateVirtualMachineView {
        CreateVirtualMachineView {
            id: self.id@,
            hostname: self.hostname@,
            vcpu: self.vcpu,
            memory: self.memory,
            ovmf: self.ovmf,
            network_interfaces: self.network_interfaces.deep_view(),
            drives: self.drives.deep_view(),
        }
    }
}

/// The registry itself: the single source of truth for every record.
/// Allocation scans are collision-free under serialized access: one
/// writer at a time performs a whole create or delete, which the
/// exclusive borrow on every mutating operation enforces in-process.
pub struct VmRegistry {
    vms: Vec<VirtualMachineRecord>,
    drives: Vec<DriveRecord>,
    nics: Vec<NetworkInterfaceRecord>,
    addrs: Vec<IPv4AddressRecord>,
}

/// The mathematical value of the whole registry.
#[verifier::ext_equal]
pub struct RegistryView {
    pub vms: Seq<VirtualMachineRecordView>,
    pub drives: Seq<DriveRecordView>,
    pub nics: Seq<NetworkInterfaceRecordView>,
    pub addrs: Seq<IPv4AddressRecordView>,
}

impl View for VmRegistry {
    type V = RegistryView;

    closed spec fn view(&self) -> RegistryView {
        RegistryView {
            vms: self.vms.deep_view(),
            drives: self.drives.deep_view(),
            nics: self.nics.deep_view(),
            addrs: self.addrs.deep_view(),
        }
    }
}

/// Both allocators scan display numbers or name suffixes below this bound.
pub const SCAN_BOUND: u32 = 1000;

/// The display string `:N` for display number `n`.
pub open spec fn display_text(n: nat) -> Seq<char> {
    ":"@ + spec_dec(n)
}

/// The interface name for suffix `n` under the fixed naming scheme.
pub open spec fn ifname_text(n: nat) -> Seq<char> {
    "yave"@ + spec_dec(n)
}

/// Whether some virtual machine record carries this identifier.
pub open spec fn has_vm(v: RegistryView, id: Seq<char>) -> bool {
    exists|i: int| 0 <= i < v.vms.len() && v.vms[i].id == id
}

/// Whether some virtual machine record holds this display string.
pub open spec fn display_used(v: RegistryView, d: Seq<char>) -> bool {
    exists|i: int| 0 <= i < v.vms.len() && v.vms[i].vnc_display == d
}

/// Whether some interface record holds this interface name.
pub open spec fn ifname_used(v: RegistryView, f: Seq<char>) -> bool {
    exists|i: int| 0 <= i < v.nics.len() && v.nics[i].ifname == f
}

/// Whether some address record holds this address.
pub open spec fn address_used(v: RegistryView, a: Seq<char>) -> bool {
    exists|i: int| 0 <= i < v.addrs.len() && v.addrs[i].address == a
}

/// The invariants of the data model: primary keys are unique, display
/// strings and interface names never collide, and every foreign key
/// references an existing row.
pub open spec fn wf_registry(v: RegistryView) -> bool {
    &&& forall|i: int, j: int|
        0 <= i < v.vms.len() && 0 <= j < v.vms.len() && i != j
            ==> #[trigger] v.vms[i].id != #[trigger] v.vms[j].id
    &&& forall|i: int, j: int|
        0 <= i < v.vms.len() && 0 <= j < v.vms.len() && i != j
            ==> #[trigger] v.vms[i].vnc_display != #[trigger] v.vms[j].vnc_display
    &&& forall|i: int, j: int|
        0 <= i < v.nics.len() && 0 <= j < v.nics.len() && i != j
            ==> #[trigger] v.nics[i].ifname != #[trigger] v.nics[j].ifname
    &&& forall|i: int, j: int|
        0 <= i < v.nics.len() && 0 <= j < v.nics.len() && i != j && v.nics[i].vm_id
            == v.nics[j].vm_id ==> #[trigger] v.nics[i].id != #[trigger] v.nics[j].id
    &&& forall|i: int, j: int|
        0 <= i < v.drives.len() && 0 <= j < v.drives.len() && i != j && v.drives[i].vm_id
            == v.drives[j].vm_id ==> #[trigger] v.drives[i].id != #[trigger] v.drives[j].id
    &&& forall|i: int, j: int|
        0 <= i < v.addrs.len() && 0 <= j < v.addrs.len() && i != j
            ==> #[trigger] v.addrs[i].address != #[trigger] v.addrs[j].address
    &&& forall|i: int| 0 <= i < v.drives.len() ==> has_vm(v, #[trigger] v.drives[i].vm_id)
    &&& forall|i: int| 0 <= i < v.nics.len() ==> has_vm(v, #[trigger] v.nics[i].vm_id)
    &&& forall|i: int| 0 <= i < v.addrs.len() ==> ifname_used(v, #[trigger] v.addrs[i].ifname)
    &&& forall|i: int| 0 <= i < v.addrs.len() ==> (#[trigger] v.addrs[i]).netmask <= 32
}

/// The first free display number at or after `n`, below the scan bound.
pub open spec fn spec_scan_display(v: RegistryView, n: nat) -> Option<nat>
    decreases SCAN_BOUND - n when n <= SCAN_BOUND
{
    if n >= SCAN_BOUND {
        None
    } else if !display_used(v, display_text(n)) {
        Some(n)
    } else {
        spec_scan_display(v, n + 1)
    }
}

/// The first free interface-name suffix at or after `n`, below the bound.
pub open spec fn spec_scan_ifname(v: RegistryView, n: nat) -> Option<nat>
    decreases SCAN_BOUND - n when n <= SCAN_BOUND
{
    if n >= SCAN_BOUND {
        None
    } else if !ifname_used(v, ifname_text(n)) {
        Some(n)
    } else {
        spec_scan_ifname(v, n + 1)
    }
}

/// Pairwise distinct requested interface identifiers.
pub open spec fn distinct_nic_ids(s: Seq<CreateNetworkInterfaceView>) -> bool {
    forall|i: int, j: int|
        0 <= i < s.len() && 0 <= j < s.len() && i != j ==> #[trigger] s[i].id != #[trigger] s[j].id
}

/// Pairwise distinct requested drive identifiers.
pub open spec fn distinct_drive_ids(s: Seq<CreateDriveView>) -> bool {
    forall|i: int, j: int|
        0 <= i < s.len() && 0 <= j < s.len() && i != j ==> #[trigger] s[i].id != #[trigger] s[j].id
}

/// The interface record allocated for suffix `k`: its name follows the
/// naming scheme and its MAC address is derived from that name.
pub open spec fn nic_record_for(vm_id: Seq<char>, nic_id: Seq<char>, k: nat)
    -> NetworkInterfaceRecordView {
    NetworkInterfaceRecordView {
        ifname: ifname_text(k),
        vm_id: vm_id,
        id: nic_id,
        mac_address: spec_mac(ifname_text(k)),
    }
}

/// The registry with one more interface record.
pub open spec fn with_nic(v: RegistryView, rec: NetworkInterfaceRecordView) -> RegistryView {
    RegistryView { nics: v.nics.push(rec), ..v }
}

/// Allocates one interface record per request, each scan seeing the
/// interfaces allocated before it; `None` when a scan finds no free name.
pub open spec fn spec_add_nics(
    v: RegistryView,
    vm_id: Seq<char>,
    ins: Seq<CreateNetworkInterfaceView>,
) -> Option<RegistryView>
    decreases ins.len(),
{
    if ins.len() == 0 {
        Some(v)
    } else {
        match spec_scan_ifname(v, 0) {
            None => None,
            Some(k) => spec_add_nics(
                with_nic(v, nic_record_for(vm_id, ins[0].id, k)),
                vm_id,
                ins.drop_first(),
            ),
        }
    }
}

/// The drive records stored for the requested drives, in request order.
pub open spec fn drive_records_for(vm_id: Seq<char>, ins: Seq<CreateDriveView>)
    -> Seq<DriveRecordView> {
    ins.map_values(
        |d: CreateDriveView| DriveRecordView { vm_id: vm_id, id: d.id, drive_bus: d.drive_bus },
    )
}

/// The virtual machine record created for a request, with display number `n`.
pub open spec fn vm_record_for(input: CreateVirtualMachineView, n: nat)
    -> VirtualMachineRecordView {
    VirtualMachineRecordView {
        id: input.id,
        hostname: input.hostname,
        vcpu: input.vcpu,
        memory: input.memory,
        ovmf: input.ovmf,
        vnc_display: display_text(n),
    }
}

/// The requested boot index of one drive, wherever its bus carries it.
pub open spec fn spec_boot_of(d: CreateDriveView) -> Option<u32> {
    match d.drive_bus {
        DriveBus::Ide { media_type, boot_index } => boot_index,
        DriveBus::VirtioBlk { boot_index } => boot_index,
    }
}

/// At most one boot-ordering scheme per machine: either no drive carries
/// a boot index, or every drive carries one and the indices are the
/// dense positive run 1, 2, ... in declaration order.
pub open spec fn boot_scheme_ok(ds: Seq<CreateDriveView>) -> bool {
    (forall|i: int| 0 <= i < ds.len() ==> spec_boot_of(#[trigger] ds[i]) is None) || (forall|
        i: int,
    |
        0 <= i < ds.len() ==> (spec_boot_of(#[trigger] ds[i]) matches Some(b) && b as int == i
            + 1))
}

/// What creating a virtual machine does to the registry: the whole
/// operation succeeds with the machine row, one interface row per request
/// and one drive row per request appended in request order, or fails
/// without any change — a taken identifier is a conflict, an exhausted
/// allocator a no-free-resource failure.
pub open spec fn spec_create_vm(v: RegistryView, input: CreateVirtualMachineView)
    -> Result<RegistryView, Error> {
    if has_vm(v, input.id) || !distinct_nic_ids(input.network_interfaces)
        || !distinct_drive_ids(input.drives) {
        Err(Error::Conflict)
    } else if !boot_scheme_ok(input.drives) {
        Err(Error::InvalidArgument)
    } else {
        match spec_scan_display(v, 1) {
            None => Err(Error::NoFreeResource),
            Some(n) => {
                let v1 = RegistryView { vms: v.vms.push(vm_record_for(input, n)), ..v };
                match spec_add_nics(v1, input.id, input.network_interfaces) {
                    None => Err(Error::NoFreeResource),
                    Some(v2) => Ok(
                        RegistryView {
                            drives: v2.drives + drive_records_for(input.id, input.drives),
                            ..v2
                        },
                    ),
                }
            },
        }
    }
}

/// A display number found by the scan is free and within the bound.
proof fn lemma_scan_display_free(v: RegistryView, n: nat)
    requires
        n <= SCAN_BOUND,
    ensures
        spec_scan_display(v, n) matches Some(k) ==> !display_used(v, display_text(k)) && n <= k
            < SCAN_BOUND,
    decreases SCAN_BOUND - n,
{
    if n < SCAN_BOUND && display_used(v, display_text(n)) {
        lemma_scan_display_free(v, n + 1);
    }
}

/// An interface-name suffix found by the scan is free and within the bound.
proof fn lemma_scan_ifname_free(v: RegistryView, n: nat)
    requires
        n <= SCAN_BOUND,
    ensures
        spec_scan_ifname(v, n) matches Some(k) ==> !ifname_used(v, ifname_text(k)) && n <= k
            < SCAN_BOUND,
    decreases SCAN_BOUND - n,
{
    if n < SCAN_BOUND && ifname_used(v, ifname_text(n)) {
        lemma_scan_ifname_free(v, n + 1);
    }
}

/// Interface allocation keeps the registry well-formed: the machine rows
/// are untouched, and the new interface rows carry the requested
/// identifiers in order, with MAC addresses derived from their names.
proof fn lemma_add_nics(v: RegistryView, vm_id: Seq<char>, ins: Seq<CreateNetworkInterfaceView>)
    requires
        wf_registry(v),
        has_vm(v, vm_id),
        distinct_nic_ids(ins),
        forall|i: int, j: int|
            0 <= i < v.nics.len() && 0 <= j < ins.len() && #[trigger] v.nics[i].vm_id == vm_id
                ==> v.nics[i].id != #[trigger] ins[j].id,
    ensures
        match spec_add_nics(v, vm_id, ins) {
            Some(v2) => {
                &&& wf_registry(v2)
                &&& v2.vms == v.vms
                &&& v2.drives == v.drives
                &&& v2.addrs == v.addrs
                &&& v2.nics.len() == v.nics.len() + ins.len()
                &&& forall|j: int|
                    0 <= j < v.nics.len() ==> #[trigger] v2.nics[j] == v.nics[j]
                &&& forall|j: int|
                    0 <= j < ins.len() ==> {
                        &&& (#[trigger] v2.nics[v.nics.len() + j]).vm_id == vm_id
                        &&& v2.nics[v.nics.len() + j].id == ins[j].id
                        &&& v2.nics[v.nics.len() + j].mac_address == spec_mac(
                            v2.nics[v.nics.len() + j].ifname,
                        )
                    }
            },
            None => true,
        },
    decreases ins.len(),
{
    if ins.len() == 0 {
    } else {
        match spec_scan_ifname(v, 0) {
            None => {},
            Some(k) => {
                lemma_scan_ifname_free(v, 0);
                let rec = nic_record_for(vm_id, ins[0].id, k);
                let vx = with_nic(v, rec);
                assert forall|i: int| 0 <= i < vx.drives.len() implies has_vm(
                    vx,
                    #[trigger] vx.drives[i].vm_id,
                ) by {
                    assert(has_vm(v, v.drives[i].vm_id));
                }
                assert forall|i: int| 0 <= i < vx.nics.len() implies has_vm(
                    vx,
                    #[trigger] vx.nics[i].vm_id,
                ) by {
                    if i < v.nics.len() {
                        assert(has_vm(v, v.nics[i].vm_id));
                    }
                }
                assert forall|i: int| 0 <= i < vx.addrs.len() implies ifname_used(
                    vx,
                    #[trigger] vx.addrs[i].ifname,
                ) by {
                    assert(ifname_used(v, v.addrs[i].ifname));
                    let w = choose|w: int|
                        0 <= w < v.nics.len() && v.nics[w].ifname == v.addrs[i].ifname;
                    assert(vx.nics[w].ifname == vx.addrs[i].ifname);
                }
                assert(wf_registry(vx));
                assert(ins.drop_first().len() == ins.len() - 1);
                assert forall|i: int, j: int|
                    0 <= i < vx.nics.len() && 0 <= j < ins.drop_first().len()
                        && #[trigger] vx.nics[i].vm_id == vm_id implies vx.nics[i].id
                    != #[trigger] ins.drop_first()[j].id by {
                    assert(ins.drop_first()[j] == ins[j + 1]);
                    if i < v.nics.len() {
                        assert(v.nics[i].id != ins[j + 1].id);
                    } else {
                        assert(vx.nics[i] == rec);
                        assert(ins[0].id != ins[j + 1].id);
                    }
                }
                lemma_add_nics(vx, vm_id, ins.drop_first());
                match spec_add_nics(vx, vm_id, ins.drop_first()) {
                    Some(v2) => {
                        assert forall|j: int| 0 <= j < ins.len() implies {
                            &&& (#[trigger] v2.nics[v.nics.len() + j]).vm_id == vm_id
                            &&& v2.nics[v.nics.len() + j].id == ins[j].id
                            &&& v2.nics[v.nics.len() + j].mac_address == spec_mac(
                                v2.nics[v.nics.len() + j].ifname,
                            )
                        } by {
                            if j == 0 {
                                assert(v2.nics[v.nics.len() as int] == rec);
                            } else {
                                assert(v2.nics[vx.nics.len() + (j - 1)].id == ins.drop_first()[j
                                    - 1].id);
                            }
                        }
                    },
                    None => {},
                }
            },
        }
    }
}

/// What the rows of a freshly created machine hold: the machine row is
/// appended with the requested hardware, the drive rows carry the
/// requested identifiers and bus metadata in order, and the interface
/// rows carry the requested identifiers in order with MAC addresses
/// derived from their allocated names; nothing else changes.
pub proof fn lemma_create_vm_rows(v: RegistryView, input: CreateVirtualMachineView)
    requires
        wf_registry(v),
    ensures
        spec_create_vm(v, input) matches Ok(v2) ==> {
            &&& v2.vms.len() == v.vms.len() + 1
            &&& v2.vms.last().id == input.id
            &&& v2.vms.last().hostname == input.hostname
            &&& v2.vms.last().vcpu == input.vcpu
            &&& v2.vms.last().memory == input.memory
            &&& v2.vms.last().ovmf == input.ovmf
            &&& forall|j: int| 0 <= j < v.vms.len() ==> #[trigger] v2.vms[j] == v.vms[j]
            &&& v2.drives == v.drives + drive_records_for(input.id, input.drives)
            &&& v2.nics.len() == v.nics.len() + input.network_interfaces.len()
            &&& forall|j: int| 0 <= j < v.nics.len() ==> #[trigger] v2.nics[j] == v.nics[j]
            &&& forall|j: int|
                0 <= j < input.network_interfaces.len() ==> {
                    &&& (#[trigger] v2.nics[v.nics.len() + j]).vm_id == input.id
                    &&& v2.nics[v.nics.len() + j].id == input.network_interfaces[j].id
                    &&& v2.nics[v.nics.len() + j].mac_address == spec_mac(
                        v2.nics[v.nics.len() + j].ifname,
                    )
                }
            &&& v2.addrs == v.addrs
        },
{
    if !(has_vm(v, input.id) || !distinct_nic_ids(input.network_interfaces)
        || !distinct_drive_ids(input.drives)) && boot_scheme_ok(input.drives) {
        match spec_scan_display(v, 1) {
            None => {},
            Some(n) => {
                lemma_scan_display_free(v, 1);
                let rec = vm_record_for(input, n);
                let v1 = RegistryView { vms: v.vms.push(rec), ..v };
                assert forall|i: int| 0 <= i < v1.drives.len() implies has_vm(
                    v1,
                    #[trigger] v1.drives[i].vm_id,
                ) by {
                    let w = choose|w: int|
                        0 <= w < v.vms.len() && v.vms[w].id == v.drives[i].vm_id;
                    assert(v1.vms[w].id == v1.drives[i].vm_id);
                }
                assert forall|i: int| 0 <= i < v1.nics.len() implies has_vm(
                    v1,
                    #[trigger] v1.nics[i].vm_id,
                ) by {
                    let w = choose|w: int| 0 <= w < v.vms.len() && v.vms[w].id == v.nics[i].vm_id;
                    assert(v1.vms[w].id == v1.nics[i].vm_id);
                }
                assert forall|i: int| 0 <= i < v1.addrs.len() implies ifname_used(
                    v1,
                    #[trigger] v1.addrs[i].ifname,
                ) by {
                    assert(ifname_used(v, v.addrs[i].ifname));
                }
                assert(wf_registry(v1));
                assert(has_vm(v1, input.id)) by {
                    assert(v1.vms[v.vms.len() as int].id == input.id);
                }
                assert forall|i: int, j: int|
                    0 <= i < v1.nics.len() && 0 <= j < input.network_interfaces.len()
                        && #[trigger] v1.nics[i].vm_id == input.id implies v1.nics[i].id
                    != #[trigger] input.network_interfaces[j].id by {
                    assert(has_vm(v, v.nics[i].vm_id));
                    assert(false);
                }
                lemma_add_nics(v1, input.id, input.network_interfaces);
            },
        }
    }
}

/// Creating a virtual machine keeps the registry well-formed.
proof fn lemma_create_wf(v: RegistryView, input: CreateVirtualMachineView)
    requires
        wf_registry(v),
    ensures
        spec_create_vm(v, input) matches Ok(v3) ==> wf_registry(v3),
{
    if !(has_vm(v, input.id) || !distinct_nic_ids(input.network_interfaces)
        || !distinct_drive_ids(input.drives)) && boot_scheme_ok(input.drives) {
        match spec_scan_display(v, 1) {
            None => {},
            Some(n) => {
                lemma_scan_display_free(v, 1);
                let rec = vm_record_for(input, n);
                let v1 = RegistryView { vms: v.vms.push(rec), ..v };
                assert forall|i: int| 0 <= i < v1.drives.len() implies has_vm(
                    v1,
                    #[trigger] v1.drives[i].vm_id,
                ) by {
                    let w = choose|w: int|
                        0 <= w < v.vms.len() && v.vms[w].id == v.drives[i].vm_id;
                    assert(v1.vms[w].id == v1.drives[i].vm_id);
                }
                assert forall|i: int| 0 <= i < v1.nics.len() implies has_vm(
                    v1,
                    #[trigger] v1.nics[i].vm_id,
                ) by {
                    let w = choose|w: int| 0 <= w < v.vms.len() && v.vms[w].id == v.nics[i].vm_id;
                    assert(v1.vms[w].id == v1.nics[i].vm_id);
                }
                assert forall|i: int| 0 <= i < v1.addrs.len() implies ifname_used(
                    v1,
                    #[trigger] v1.addrs[i].ifname,
                ) by {
                    assert(ifname_used(v, v.addrs[i].ifname));
                }
                assert(wf_registry(v1));
                assert(has_vm(v1, input.id)) by {
                    assert(v1.vms[v.vms.len() as int].id == input.id);
                }
                assert forall|i: int, j: int|
                    0 <= i < v1.nics.len() && 0 <= j < input.network_interfaces.len()
                        && #[trigger] v1.nics[i].vm_id == input.id implies v1.nics[i].id
                    != #[trigger] input.network_interfaces[j].id by {
                    assert(has_vm(v, v.nics[i].vm_id));
                    assert(false);
                }
                lemma_add_nics(v1, input.id, input.network_interfaces);
                match spec_add_nics(v1, input.id, input.network_interfaces) {
                    None => {},
                    Some(v2) => {
                        let newdrives = drive_records_for(input.id, input.drives);
                        let v3 = RegistryView { drives: v2.drives + newdrives, ..v2 };
                        assert forall|i: int, j: int|
                            0 <= i < v3.drives.len() && 0 <= j < v3.drives.len() && i != j
                                && v3.drives[i].vm_id == v3.drives[j].vm_id implies #[trigger] v3
                            .drives[i].id != #[trigger] v3.drives[j].id by {
                            if i < v.drives.len() && j < v.drives.len() {
                            } else if i >= v.drives.len() && j >= v.drives.len() {
                                assert(v3.drives[i].id == input.drives[i - v.drives.len()].id);
                                assert(v3.drives[j].id == input.drives[j - v.drives.len()].id);
                            } else {
                                let (o, p) = if i < j { (i, j) } else { (j, i) };
                                assert(v3.drives[o] == v.drives[o]);
                                assert(v3.drives[p].vm_id == input.id);
                                assert(has_vm(v, v.drives[o].vm_id));
                                assert(v.drives[o].vm_id != input.id);
                                assert(false);
                            }
                        }
                        assert forall|i: int| 0 <= i < v3.drives.len() implies has_vm(
                            v3,
                            #[trigger] v3.drives[i].vm_id,
                        ) by {
                            if i < v.drives.len() {
                                let w = choose|w: int|
                                    0 <= w < v1.vms.len() && v1.vms[w].id == v1.drives[i].vm_id;
                                assert(v3.vms[w].id == v3.drives[i].vm_id);
                            } else {
                                assert(v3.drives[i].vm_id == input.id);
                                let w = choose|w: int|
                                    0 <= w < v1.vms.len() && v1.vms[w].id == input.id;
                                assert(v3.vms[w].id == input.id);
                            }
                        }
                        assert forall|i: int| 0 <= i < v3.nics.len() implies has_vm(
                            v3,
                            #[trigger] v3.nics[i].vm_id,
                        ) by {
                            let w = choose|w: int|
                                0 <= w < v2.vms.len() && v2.vms[w].id == v2.nics[i].vm_id;
                            assert(v3.vms[w].id == v3.nics[i].vm_id);
                        }
                        assert forall|i: int| 0 <= i < v3.addrs.len() implies ifname_used(
                            v3,
                            #[trigger] v3.addrs[i].ifname,
                        ) by {
                            let w = choose|w: int|
                                0 <= w < v2.nics.len() && v2.nics[w].ifname == v2.addrs[i].ifname;
                            assert(v3.nics[w].ifname == v3.addrs[i].ifname);
                        }
                        assert(wf_registry(v3));
                    },
                }
            },
        }
    }
}

/// The display string `:N` for display number `n`.
pub fn display_string(n: u32) -> (r: String)
    ensures
        r@ == display_text(n as nat),
{
    let mut s: String = ":".to_owned();
    push_dec(&mut s, n as u64);
    s
}

/// The interface name for suffix `n`.
pub fn ifname_string(n: u32) -> (r: String)
    ensures
        r@ == ifname_text(n as nat),
{
    let mut s: String = "yave".to_owned();
    push_dec(&mut s, n as u64);
    s
}

impl VmRegistry {
    /// The registry's invariants, as a predicate on its value.
    pub open spec fn wf(&self) -> bool {
        wf_registry(self@)
    }

    /// An empty registry.
    pub fn new() -> (r: Self)
        ensures
            r.wf(),
            r@.vms == Seq::<VirtualMachineRecordView>::empty(),
            r@.drives == Seq::<DriveRecordView>::empty(),
            r@.nics == Seq::<NetworkInterfaceRecordView>::empty(),
            r@.addrs == Seq::<IPv4AddressRecordView>::empty(),
    {
        let r = VmRegistry { vms: Vec::new(), drives: Vec::new(), nics: Vec::new(), addrs: Vec::new() };
        proof {
            assert(r@.vms =~= Seq::<VirtualMachineRecordView>::empty());
            assert(r@.drives =~= Seq::<DriveRecordView>::empty());
            assert(r@.nics =~= Seq::<NetworkInterfaceRecordView>::empty());
            assert(r@.addrs =~= Seq::<IPv4AddressRecordView>::empty());
        }
        r
    }

    fn display_in_use(&self, s: &String) -> (r: bool)
        ensures
            r == display_used(self@, s@),
    {
        let mut i: usize = 0;
        while i < self.vms.len()
            invariant
                i <= self.vms.len(),
                forall|k: int| 0 <= k < i ==> #[trigger] self@.vms[k].vnc_display != s@,
            decreases self.vms.len() - i,
        {
            if self.vms[i].vnc_display == *s {
                proof {
                    assert(self@.vms[i as int].vnc_display == s@);
                }
                return true;
            }
            i = i + 1;
        }
        false
    }

    fn ifname_in_use(&self, s: &String) -> (r: bool)
        ensures
            r == ifname_used(self@, s@),
    {
        let mut i: usize = 0;
        while i < self.nics.len()
            invariant
                i <= self.nics.len(),
                forall|k: int| 0 <= k < i ==> #[trigger] self@.nics[k].ifname != s@,
            decreases self.nics.len() - i,
        {
            if self.nics[i].ifname == *s {
                proof {
                    assert(self@.nics[i as int].ifname == s@);
                }
                return true;
            }
            i = i + 1;
        }
        false
    }

    /// The lowest free display string `:N`, scanning display numbers
    /// upward from 1; `None` when every number below the bound is taken.
    fn find_free_vnc_display(&self) -> (r: Option<String>)
        ensures
            match r {
                Some(s) => spec_scan_display(self@, 1) matches Some(n) && s@ == display_text(n),
                None => spec_scan_display(self@, 1) is None,
            },
    {
        let mut n: u32 = 1;
        while n < SCAN_BOUND
            invariant
                1 <= n <= SCAN_BOUND,
                spec_scan_display(self@, 1) == spec_scan_display(self@, n as nat),
            decreases SCAN_BOUND - n,
        {
            let s = display_string(n);
            if !self.display_in_use(&s) {
                proof {
                    assert(spec_scan_display(self@, n as nat) == Some(n as nat));
                }
                return Some(s);
            }
            proof {
                assert(spec_scan_display(self@, n as nat) == spec_scan_display(
                    self@,
                    n as nat + 1,
                ));
            }
            n = n + 1;
        }
        None
    }

    /// The lowest free interface name under the fixed naming scheme,
    /// scanning suffixes upward from 0; `None` when all are taken.
    fn find_free_ifname(&self) -> (r: Option<String>)
        ensures
            match r {
                Some(s) => spec_scan_ifname(self@, 0) matches Some(n) && s@ == ifname_text(n),
                None => spec_scan_ifname(self@, 0) is None,
            },
    {
        let mut n: u32 = 0;
        while n < SCAN_BOUND
            invariant
                n <= SCAN_BOUND,
                spec_scan_ifname(self@, 0) == spec_scan_ifname(self@, n as nat),
            decreases SCAN_BOUND - n,
        {
            let s = ifname_string(n);
            if !self.ifname_in_use(&s) {
                proof {
                    assert(spec_scan_ifname(self@, n as nat) == Some(n as nat));
                }
                return Some(s);
            }
            proof {
                assert(spec_scan_ifname(self@, n as nat) == spec_scan_ifname(
                    self@,
                    n as nat + 1,
                ));
            }
            n = n + 1;
        }
        None
    }

    fn contains_vm_id(&self, id: &String) -> (r: bool)
        ensures
            r == has_vm(self@, id@),
    {
        let mut i: usize = 0;
        while i < self.vms.len()
            invariant
                i <= self.vms.len(),
                forall|k: int| 0 <= k < i ==> #[trigger] self@.vms[k].id != id@,
            decreases self.vms.len() - i,
        {
            if self.vms[i].id == *id {
                proof {
                    assert(self@.vms[i as int].id == id@);
                }
                return true;
            }
            i = i + 1;
        }
        false
    }

    /// Creates a virtual machine: inserts the machine row under the
    /// lowest free display number, then one interface row per request —
    /// allocating the lowest free interface name and deriving its MAC
    /// address from that name — then one drive row per request. Fails
    /// without changing the registry when the identifier is taken, when
    /// requested identifiers collide, or when an allocator is exhausted.
    pub fn create_vm(&mut self, vm: CreateVirtualMachine) -> (r: Result<
        VirtualMachineRecord,
        Error,
    >)
        requires
            old(self).wf(),
        ensures
            final(self).wf(),
            match spec_create_vm(old(self)@, vm@) {
                Ok(v2) => r matches Ok(rec) && final(self)@ == v2 && rec@ == v2.vms.last(),
                Err(e) => r matches Err(e2) && e2 == e && final(self)@ == old(self)@,
            },
    {
        if self.contains_vm_id(&vm.id) {
            return Err(Error::Conflict);
        }
        if !nic_ids_distinct(&vm.network_interfaces) {
            return Err(Error::Conflict);
        }
        if !drive_ids_distinct(&vm.drives) {
            return Err(Error::Conflict);
        }
        if !boot_scheme_valid(&vm.drives) {
            return Err(Error::InvalidArgument);
        }
        let display = match self.find_free_vnc_display() {
            Some(d) => d,
            None => {
                return Err(Error::NoFreeResource);
            },
        };
        let ghost v0 = self@;
        let ghost n = spec_scan_display(v0, 1)->Some_0;
        let orig_vms_len = self.vms.len();
        let orig_nics_len = self.nics.len();
        let record = VirtualMachineRecord {
            id: vm.id.clone(),
            hostname: vm.hostname.clone(),
            vcpu: vm.vcpu,
            memory: vm.memory,
            ovmf: vm.ovmf,
            vnc_display: display,
        };
        let result = record.duplicate();
        self.vms.push(record);
        let ghost v1 = RegistryView { vms: v0.vms.push(vm_record_for(vm@, n)), ..v0 };
        proof {
            assert(self@.vms =~= v1.vms);
            assert(self@ =~= v1);
            assert(self.vms@.take(orig_vms_len as int) =~= old(self).vms@);
            assert(self.nics@.take(orig_nics_len as int) =~= old(self).nics@);
            assert(vm@.network_interfaces.skip(0) =~= vm@.network_interfaces);
        }
        let ghost ins = vm@.network_interfaces;
        let mut i: usize = 0;
        while i < vm.network_interfaces.len()
            invariant
                old(self).wf(),
                !has_vm(old(self)@, vm@.id),
                distinct_nic_ids(vm@.network_interfaces),
                distinct_drive_ids(vm@.drives),
                boot_scheme_ok(vm@.drives),
                spec_scan_display(old(self)@, 1) == Some(n),
                v1 == (RegistryView {
                    vms: old(self)@.vms.push(vm_record_for(vm@, n)),
                    ..old(self)@
                }),
                i <= vm.network_interfaces.len(),
                ins == vm@.network_interfaces,
                ins.len() == vm.network_interfaces.len(),
                self@.vms == v1.vms,
                self@.drives == v1.drives,
                self@.addrs == v1.addrs,
                self.vms.len() == orig_vms_len + 1,
                self.nics.len() == orig_nics_len + i,
                self.vms@.take(orig_vms_len as int) =~= old(self).vms@,
                self.nics@.take(orig_nics_len as int) =~= old(self).nics@,
                self.drives@ == old(self).drives@,
                self.addrs@ == old(self).addrs@,
                spec_add_nics(v1, vm@.id, ins) == spec_add_nics(self@, vm@.id, ins.skip(i as int)),
            decreases vm.network_interfaces.len() - i,
        {
            let ghost pre = self@;
            let ifname = match self.find_free_ifname() {
                Some(f) => f,
                None => {
                    proof {
                        assert(ins.skip(i as int).len() > 0);
                        assert(spec_add_nics(pre, vm@.id, ins.skip(i as int)) is None);
                    }
                    self.nics.truncate(orig_nics_len);
                    self.vms.truncate(orig_vms_len);
                    proof {
                        assert(self@.vms =~= old(self)@.vms);
                        assert(self@.nics =~= old(self)@.nics);
                        assert(self@ =~= old(self)@);
                    }
                    return Err(Error::NoFreeResource);
                },
            };
            let ghost k = spec_scan_ifname(pre, 0)->Some_0;
            let mac = get_mac(ifname.as_str());
            self.nics.push(
                NetworkInterfaceRecord {
                    ifname,
                    vm_id: vm.id.clone(),
                    id: vm.network_interfaces[i].id.clone(),
                    mac_address: mac,
                },
            );
            proof {
                let rec = nic_record_for(vm@.id, ins[i as int].id, k);
                assert(self@.nics =~= pre.nics.push(rec));
                assert(self@ =~= with_nic(pre, rec));
                assert(ins.skip(i as int)[0] == ins[i as int]);
                assert(ins.skip(i as int).drop_first() =~= ins.skip(i as int + 1));
                assert(spec_add_nics(pre, vm@.id, ins.skip(i as int)) == spec_add_nics(
                    self@,
                    vm@.id,
                    ins.skip(i as int + 1),
                ));
                assert(self.nics@.take(orig_nics_len as int) =~= old(self).nics@);
            }
            i = i + 1;
        }
        proof {
            assert(ins.skip(ins.len() as int) =~= Seq::<CreateNetworkInterfaceView>::empty());
            assert(spec_add_nics(v1, vm@.id, ins) == Some(self@));
        }
        let ghost v2 = self@;
        let mut j: usize = 0;
        while j < vm.drives.len()
            invariant
                j <= vm.drives.len(),
                self@.vms == v2.vms,
                self@.nics == v2.nics,
                self@.addrs == v2.addrs,
                self@.drives =~= v2.drives + drive_records_for(vm@.id, vm@.drives.take(j as int)),
            decreases vm.drives.len() - j,
        {
            let ghost predrives = self@.drives;
            self.drives.push(
                DriveRecord {
                    vm_id: vm.id.clone(),
                    id: vm.drives[j].id.clone(),
                    drive_bus: vm.drives[j].drive_bus,
                },
            );
            j = j + 1;
            proof {
                let recv = DriveRecordView {
                    vm_id: vm@.id,
                    id: vm@.drives[j - 1].id,
                    drive_bus: vm@.drives[j - 1].drive_bus,
                };
                assert(self@.drives =~= predrives.push(recv));
                assert(vm@.drives.take(j as int) =~= vm@.drives.take(j - 1).push(
                    vm@.drives[j - 1],
                ));
                assert(drive_records_for(vm@.id, vm@.drives.take(j as int)) =~= drive_records_for(
                    vm@.id,
                    vm@.drives.take(j - 1),
                ).push(recv));
                assert(self@.drives =~= v2.drives + drive_records_for(
                    vm@.id,
                    vm@.drives.take(j as int),
                ));
            }
        }
        proof {
            assert(vm@.drives.take(vm@.drives.len() as int) =~= vm@.drives);
            let v3 = RegistryView {
                drives: v2.drives + drive_records_for(vm@.id, vm@.drives),
                ..v2
            };
            assert(self@ =~= v3);
            assert(spec_create_vm(old(self)@, vm@) == Ok::<RegistryView, Error>(v3));
            lemma_create_wf(old(self)@, vm@);
            assert(result@ == v3.vms.last());
        }
        Ok(result)
    }
}

/// Holding a drive record to one owning machine.
pub open spec fn drive_of_vm(id: Seq<char>) -> spec_fn(DriveRecordView) -> bool {
    |d: DriveRecordView| d.vm_id == id
}

/// Holding an interface record to one owning machine.
pub open spec fn nic_of_vm(id: Seq<char>) -> spec_fn(NetworkInterfaceRecordView) -> bool {
    |n: NetworkInterfaceRecordView| n.vm_id == id
}

/// Holding an address record to one interface name.
pub open spec fn addr_of_ifname(f: Seq<char>) -> spec_fn(IPv4AddressRecordView) -> bool {
    |a: IPv4AddressRecordView| a.ifname == f
}

/// The drive records belonging to one virtual machine, in insertion order.
pub open spec fn vm_drives(v: RegistryView, id: Seq<char>) -> Seq<DriveRecordView> {
    v.drives.filter(drive_of_vm(id))
}

/// The interface records belonging to one virtual machine, in insertion order.
pub open spec fn vm_nics(v: RegistryView, id: Seq<char>) -> Seq<NetworkInterfaceRecordView> {
    v.nics.filter(nic_of_vm(id))
}

/// The address records bound to one interface name, in insertion order.
pub open spec fn addrs_for_ifname(v: RegistryView, f: Seq<char>) -> Seq<IPv4AddressRecordView> {
    v.addrs.filter(addr_of_ifname(f))
}

/// The address records bound to the given interfaces, fetched per
/// interface and concatenated in interface order.
pub open spec fn addrs_for_nics(v: RegistryView, nics: Seq<NetworkInterfaceRecordView>)
    -> Seq<IPv4AddressRecordView>
    decreases nics.len(),
{
    if nics.len() == 0 {
        Seq::empty()
    } else {
        addrs_for_ifname(v, nics[0].ifname) + addrs_for_nics(v, nics.drop_first())
    }
}

/// The address records bound to any interface of one virtual machine.
pub open spec fn vm_addrs(v: RegistryView, id: Seq<char>) -> Seq<IPv4AddressRecordView> {
    addrs_for_nics(v, vm_nics(v, id))
}

/// One filtering step: extending the scanned prefix by one element keeps
/// the element exactly when the predicate holds of it.
proof fn lemma_filter_take_step<A>(s: Seq<A>, pred: spec_fn(A) -> bool, i: int)
    requires
        0 <= i < s.len(),
    ensures
        pred(s[i]) ==> s.take(i + 1).filter(pred) == s.take(i).filter(pred).push(s[i]),
        !pred(s[i]) ==> s.take(i + 1).filter(pred) == s.take(i).filter(pred),
{
    reveal(Seq::filter);
    assert(s.take(i + 1).drop_last() =~= s.take(i));
    assert(s.take(i + 1).last() == s[i]);
}

proof fn lemma_addrs_for_nics_push(
    v: RegistryView,
    nics: Seq<NetworkInterfaceRecordView>,
    n: NetworkInterfaceRecordView,
)
    ensures
        addrs_for_nics(v, nics.push(n)) == addrs_for_nics(v, nics) + addrs_for_ifname(v, n.ifname),
    decreases nics.len(),
{
    if nics.len() == 0 {
        assert(nics.push(n).drop_first() =~= nics);
        assert(nics.push(n)[0] == n);
        assert(addrs_for_nics(v, nics.push(n)) =~= addrs_for_nics(v, nics) + addrs_for_ifname(
            v,
            n.ifname,
        ));
    } else {
        assert(nics.push(n).drop_first() =~= nics.drop_first().push(n));
        assert(nics.push(n)[0] == nics[0]);
        lemma_addrs_for_nics_push(v, nics.drop_first(), n);
        assert(addrs_for_nics(v, nics.push(n)) =~= addrs_for_nics(v, nics) + addrs_for_ifname(
            v,
            n.ifname,
        ));
    }
}

impl VmRegistry {
    /// Every virtual machine record, in insertion order.
    pub fn get_virtual_machines(&self) -> (r: Vec<VirtualMachineRecord>)
        ensures
            r.deep_view() == self@.vms,
    {
        let mut out: Vec<VirtualMachineRecord> = Vec::new();
        let mut i: usize = 0;
        while i < self.vms.len()
            invariant
                i <= self.vms.len(),
                out@.len() == i,
                forall|k: int| 0 <= k < i ==> #[trigger] out@[k]@ == self@.vms[k],
            decreases self.vms.len() - i,
        {
            out.push(self.vms[i].duplicate());
            i = i + 1;
        }
        proof {
            assert(out.deep_view() =~= self@.vms);
        }
        out
    }

    /// The record with this identifier, or `None` when no such machine
    /// exists.
    pub fn get_vm_by_id(&self, vm_id: &str) -> (r: Option<VirtualMachineRecord>)
        ensures
            match r {
                Some(rec) => has_vm(self@, vm_id@) && self@.vms.contains(rec@) && rec@.id == vm_id@,
                None => !has_vm(self@, vm_id@),
            },
    {
        let key: String = vm_id.to_owned();
        let mut i: usize = 0;
        while i < self.vms.len()
            invariant
                i <= self.vms.len(),
                key@ == vm_id@,
                forall|k: int| 0 <= k < i ==> #[trigger] self@.vms[k].id != vm_id@,
            decreases self.vms.len() - i,
        {
            if self.vms[i].id == key {
                let rec = self.vms[i].duplicate();
                proof {
                    assert(self@.vms[i as int].id == vm_id@);
                    assert(self@.vms.contains(rec@));
                }
                return Some(rec);
            }
            i = i + 1;
        }
        None
    }

    fn drives_of(&self, key: &String) -> (r: Vec<DriveRecord>)
        ensures
            r.deep_view() == vm_drives(self@, key@),
    {
        let ghost pred = drive_of_vm(key@);
        let mut out: Vec<DriveRecord> = Vec::new();
        let mut i: usize = 0;
        while i < self.drives.len()
            invariant
                i <= self.drives.len(),
                pred == drive_of_vm(key@),
                out.deep_view() == self@.drives.take(i as int).filter(pred),
            decreases self.drives.len() - i,
        {
            let ghost predeep = out.deep_view();
            proof {
                lemma_filter_take_step(self@.drives, pred, i as int);
            }
            if self.drives[i].vm_id == *key {
                out.push(self.drives[i].duplicate());
                proof {
                    assert(out.deep_view() =~= predeep.push(self@.drives[i as int]));
                }
            }
            i = i + 1;
        }
        proof {
            assert(self@.drives.take(self@.drives.len() as int) =~= self@.drives);
        }
        out
    }

    fn nics_of(&self, key: &String) -> (r: Vec<NetworkInterfaceRecord>)
        ensures
            r.deep_view() == vm_nics(self@, key@),
    {
        let ghost pred = nic_of_vm(key@);
        let mut out: Vec<NetworkInterfaceRecord> = Vec::new();
        let mut i: usize = 0;
        while i < self.nics.len()
            invariant
                i <= self.nics.len(),
                pred == nic_of_vm(key@),
                out.deep_view() == self@.nics.take(i as int).filter(pred),
            decreases self.nics.len() - i,
        {
            let ghost predeep = out.deep_view();
            proof {
                lemma_filter_take_step(self@.nics, pred, i as int);
            }
            if self.nics[i].vm_id == *key {
                out.push(self.nics[i].duplicate());
                proof {
                    assert(out.deep_view() =~= predeep.push(self@.nics[i as int]));
                }
            }
            i = i + 1;
        }
        proof {
            assert(self@.nics.take(self@.nics.len() as int) =~= self@.nics);
        }
        out
    }

    fn addrs_of_ifname(&self, ifname: &String) -> (r: Vec<IPv4AddressRecord>)
        ensures
            r.deep_view() == addrs_for_ifname(self@, ifname@),
    {
        let ghost pred = addr_of_ifname(ifname@);
        let mut out: Vec<IPv4AddressRecord> = Vec::new();
        let mut i: usize = 0;
        while i < self.addrs.len()
            invariant
                i <= self.addrs.len(),
                pred == addr_of_ifname(ifname@),
                out.deep_view() == self@.addrs.take(i as int).filter(pred),
            decreases self.addrs.len() - i,
        {
            let ghost predeep = out.deep_view();
            proof {
                lemma_filter_take_step(self@.addrs, pred, i as int);
            }
            if self.addrs[i].ifname == *ifname {
                out.push(self.addrs[i].duplicate());
                proof {
                    assert(out.deep_view() =~= predeep.push(self@.addrs[i as int]));
                }
            }
            i = i + 1;
        }
        proof {
            assert(self@.addrs.take(self@.addrs.len() as int) =~= self@.addrs);
        }
        out
    }

    /// The machine record together with its drive and interface records,
    /// or a not-found error when no machine carries the identifier.
    pub fn get_all_about_vm(&self, vm_id: &str) -> (r: Result<
        (VirtualMachineRecord, Vec<DriveRecord>, Vec<NetworkInterfaceRecord>),
        Error,
    >)
        ensures
            match r {
                Ok((rec, ds, ns)) => {
                    &&& has_vm(self@, vm_id@)
                    &&& self@.vms.contains(rec@)
                    &&& rec@.id == vm_id@
                    &&& ds.deep_view() == vm_drives(self@, vm_id@)
                    &&& ns.deep_view() == vm_nics(self@, vm_id@)
                },
                Err(e) => e == Error::VMNotFound && !has_vm(self@, vm_id@),
            },
    {
        let rec = match self.get_vm_by_id(vm_id) {
            Some(rec) => rec,
            None => {
                return Err(Error::VMNotFound);
            },
        };
        let key: String = vm_id.to_owned();
        let drives = self.drives_of(&key);
        let nics = self.nics_of(&key);
        Ok((rec, drives, nics))
    }

    /// The canonical join used to build a launch request: the machine
    /// record, its drives, its interfaces, and every address bound to any
    /// of those interfaces, fetched per interface and concatenated.
    pub fn get_vm_full(&self, vm_id: &str) -> (r: Result<
        (
            VirtualMachineRecord,
            Vec<DriveRecord>,
            Vec<NetworkInterfaceRecord>,
            Vec<IPv4AddressRecord>,
        ),
        Error,
    >)
        ensures
            match r {
                Ok((rec, ds, ns, addrs)) => {
                    &&& has_vm(self@, vm_id@)
                    &&& self@.vms.contains(rec@)
                    &&& rec@.id == vm_id@
                    &&& ds.deep_view() == vm_drives(self@, vm_id@)
                    &&& ns.deep_view() == vm_nics(self@, vm_id@)
                    &&& addrs.deep_view() == vm_addrs(self@, vm_id@)
                },
                Err(e) => e == Error::VMNotFound && !has_vm(self@, vm_id@),
            },
    {
        let (rec, drives, nics) = match self.get_all_about_vm(vm_id) {
            Ok(t) => t,
            Err(e) => {
                return Err(e);
            },
        };
        let ghost nseq = nics.deep_view();
        let mut addrs: Vec<IPv4AddressRecord> = Vec::new();
        let mut i: usize = 0;
        proof {
            assert(nseq.take(0) =~= Seq::<NetworkInterfaceRecordView>::empty());
        }
        while i < nics.len()
            invariant
                i <= nics.len(),
                nseq == nics.deep_view(),
                nseq.len() == nics.len(),
                addrs.deep_view() == addrs_for_nics(
                    self@,
                    nseq.take(i as int),
                ),
            decreases nics.len() - i,
        {
            let mut more = self.addrs_of_ifname(&nics[i].ifname);
            let ghost moreseq = more.deep_view();
            addrs.append(&mut more);
            i = i + 1;
            proof {
                assert(nseq.take(i as int) =~= nseq.take(i - 1).push(nseq[i - 1]));
                lemma_addrs_for_nics_push(self@, nseq.take(i - 1), nseq[i - 1]);
                assert(addrs.deep_view() =~= addrs_for_nics(
                    self@,
                    nseq.take(i - 1),
                ) + moreseq);
                assert(addrs.deep_view() =~= addrs_for_nics(
                    self@,
                    nseq.take(i as int),
                ));
            }
        }
        proof {
            assert(nseq.take(nseq.len() as int) =~= nseq);
        }
        Ok((rec, drives, nics, addrs))
    }

    /// Reverse lookup from a host-side interface name to the machine that
    /// owns it; `None` when no interface carries the name.
    pub fn get_vm_by_ifname(&self, ifname: &str) -> (r: Option<VirtualMachineRecord>)
        requires
            self.wf(),
        ensures
            match r {
                Some(rec) => {
                    &&& ifname_used(self@, ifname@)
                    &&& self@.vms.contains(rec@)
                    &&& exists|i: int|
                        0 <= i < self@.nics.len() && (#[trigger] self@.nics[i]).ifname == ifname@
                            && self@.nics[i].vm_id == rec@.id
                },
                None => !ifname_used(self@, ifname@),
            },
    {
        let key: String = ifname.to_owned();
        let mut i: usize = 0;
        while i < self.nics.len()
            invariant
                self.wf(),
                i <= self.nics.len(),
                key@ == ifname@,
                forall|k: int| 0 <= k < i ==> #[trigger] self@.nics[k].ifname != ifname@,
            decreases self.nics.len() - i,
        {
            if self.nics[i].ifname == key {
                proof {
                    assert(self@.nics[i as int].ifname == ifname@);
                    assert(has_vm(self@, self@.nics[i as int].vm_id));
                }
                match self.get_vm_by_id(self.nics[i].vm_id.as_str()) {
                    Some(rec) => {
                        return Some(rec);
                    },
                    None => {
                        proof {
                            assert(false);
                        }
                        return None;
                    },
                }
            }
            i = i + 1;
        }
        None
    }
}

/// Whether the requested drives use at most one boot-ordering scheme:
/// no boot indices at all, or the dense run 1, 2, ... in order.
fn boot_scheme_valid(list: &Vec<CreateDrive>) -> (r: bool)
    ensures
        r == boot_scheme_ok(list.deep_view()),
{
    let ghost ds = list.deep_view();
    let mut all_none = true;
    let mut all_indexed = true;
    let mut i: usize = 0;
    while i < list.len()
        invariant
            i <= list.len(),
            ds == list.deep_view(),
            ds.len() == list.len(),
            all_none == (forall|k: int| 0 <= k < i ==> spec_boot_of(#[trigger] ds[k]) is None),
            all_indexed == (forall|k: int|
                0 <= k < i ==> (spec_boot_of(#[trigger] ds[k]) matches Some(b) && b as int == k
                    + 1)),
        decreases list.len() - i,
    {
        let boot = match &list[i].drive_bus {
            DriveBus::Ide { media_type, boot_index } => *boot_index,
            DriveBus::VirtioBlk { boot_index } => *boot_index,
        };
        proof {
            assert(spec_boot_of(ds[i as int]) == boot);
        }
        match boot {
            None => {
                all_indexed = false;
            },
            Some(b) => {
                all_none = false;
                if (b as usize) != i + 1 {
                    all_indexed = false;
                }
            },
        }
        i = i + 1;
    }
    all_none || all_indexed
}

/// Whether some interface of the given machine carries this name.
pub open spec fn ifname_of_vm(v: RegistryView, id: Seq<char>, f: Seq<char>) -> bool {
    exists|i: int|
        0 <= i < v.nics.len() && (#[trigger] v.nics[i]).vm_id == id && v.nics[i].ifname == f
}

/// Keeping a machine record that does not carry the deleted identifier.
pub open spec fn vm_kept(id: Seq<char>) -> spec_fn(VirtualMachineRecordView) -> bool {
    |m: VirtualMachineRecordView| m.id != id
}

/// Keeping a drive record not owned by the deleted machine.
pub open spec fn drive_kept(id: Seq<char>) -> spec_fn(DriveRecordView) -> bool {
    |d: DriveRecordView| d.vm_id != id
}

/// Keeping an interface record not owned by the deleted machine.
pub open spec fn nic_kept(id: Seq<char>) -> spec_fn(NetworkInterfaceRecordView) -> bool {
    |n: NetworkInterfaceRecordView| n.vm_id != id
}

/// Keeping an address record not bound to an interface of the deleted
/// machine.
pub open spec fn addr_kept(v: RegistryView, id: Seq<char>) -> spec_fn(
    IPv4AddressRecordView,
) -> bool {
    |a: IPv4AddressRecordView| !ifname_of_vm(v, id, a.ifname)
}

/// What deleting a virtual machine does to the registry: the machine row
/// goes, and with it its drive rows, its interface rows — freeing their
/// display string and interface names for reuse — and every address bound
/// to one of those interfaces; an unknown identifier is a not-found error.
pub open spec fn spec_delete_vm(v: RegistryView, id: Seq<char>) -> Result<RegistryView, Error> {
    if !has_vm(v, id) {
        Err(Error::VMNotFound)
    } else {
        Ok(
            RegistryView {
                vms: v.vms.filter(vm_kept(id)),
                drives: v.drives.filter(drive_kept(id)),
                nics: v.nics.filter(nic_kept(id)),
                addrs: v.addrs.filter(addr_kept(v, id)),
            },
        )
    }
}

/// What adding an address does: the row is appended when its interface
/// exists, its prefix length is valid and its address is new; otherwise
/// the registry is unchanged and the failure is reported distinctly.
pub open spec fn spec_add_address(v: RegistryView, a: IPv4AddressRecordView) -> Result<
    RegistryView,
    Error,
> {
    if !ifname_used(v, a.ifname) {
        Err(Error::InterfaceNotFound)
    } else if a.netmask > 32 {
        Err(Error::InvalidArgument)
    } else if address_used(v, a.address) {
        Err(Error::Conflict)
    } else {
        Ok(RegistryView { addrs: v.addrs.push(a), ..v })
    }
}

/// A filter that no element satisfies keeps nothing.
pub proof fn lemma_filter_none<A>(s: Seq<A>, pred: spec_fn(A) -> bool)
    requires
        forall|i: int| 0 <= i < s.len() ==> !pred(#[trigger] s[i]),
    ensures
        s.filter(pred) == Seq::<A>::empty(),
    decreases s.len(),
{
    reveal(Seq::filter);
    if s.len() != 0 {
        lemma_filter_none(s.drop_last(), pred);
    }
    assert(s.filter(pred) =~= Seq::<A>::empty());
}

/// A filter that every element satisfies keeps everything.
pub proof fn lemma_filter_all<A>(s: Seq<A>, pred: spec_fn(A) -> bool)
    requires
        forall|i: int| 0 <= i < s.len() ==> pred(#[trigger] s[i]),
    ensures
        s.filter(pred) == s,
    decreases s.len(),
{
    reveal(Seq::filter);
    if s.len() != 0 {
        lemma_filter_all(s.drop_last(), pred);
    }
    assert(s.filter(pred) =~= s);
}

/// Every element of a filtered sequence stems from the source sequence.
proof fn lemma_filter_in_source<A>(s: Seq<A>, pred: spec_fn(A) -> bool)
    ensures
        forall|i: int|
            0 <= i < s.filter(pred).len() ==> exists|j: int|
                0 <= j < s.len() && s[j] == #[trigger] s.filter(pred)[i],
    decreases s.len(),
{
    reveal(Seq::filter);
    if s.len() != 0 {
        let t = s.drop_last();
        lemma_filter_in_source(t, pred);
        let f = s.filter(pred);
        let ft = t.filter(pred);
        assert forall|i: int| 0 <= i < f.len() implies exists|j: int|
            0 <= j < s.len() && s[j] == #[trigger] f[i] by {
            if i < ft.len() {
                let j = choose|j: int| 0 <= j < t.len() && t[j] == ft[i];
                assert(s[j] == f[i]);
            } else {
                assert(s[s.len() - 1] == f[i]);
            }
        }
    }
}

/// Filtering keeps a pairwise-distinct key pairwise distinct.
proof fn lemma_filter_distinct_keys<A, B>(s: Seq<A>, pred: spec_fn(A) -> bool, key: spec_fn(A) -> B)
    requires
        forall|i: int, j: int|
            0 <= i < s.len() && 0 <= j < s.len() && i != j ==> key(#[trigger] s[i]) != key(
                #[trigger] s[j],
            ),
    ensures
        forall|i: int, j: int|
            0 <= i < s.filter(pred).len() && 0 <= j < s.filter(pred).len() && i != j ==> key(
                #[trigger] s.filter(pred)[i],
            ) != key(#[trigger] s.filter(pred)[j]),
    decreases s.len(),
{
    reveal(Seq::filter);
    if s.len() != 0 {
        let t = s.drop_last();
        lemma_filter_distinct_keys(t, pred, key);
        lemma_filter_in_source(t, pred);
        let f = s.filter(pred);
        let ft = t.filter(pred);
        assert forall|i: int, j: int|
            0 <= i < f.len() && 0 <= j < f.len() && i != j implies key(#[trigger] f[i]) != key(
            #[trigger] f[j],
        ) by {
            if i < ft.len() && j < ft.len() {
            } else if i < ft.len() {
                let w = choose|w: int| 0 <= w < t.len() && t[w] == ft[i];
                assert(key(s[w]) != key(s[s.len() - 1]));
            } else {
                let w = choose|w: int| 0 <= w < t.len() && t[w] == ft[j];
                assert(key(s[w]) != key(s[s.len() - 1]));
            }
        }
    }
}

/// The key projections used by the well-formedness invariants.
pub open spec fn vm_id_key() -> spec_fn(VirtualMachineRecordView) -> Seq<char> {
    |m: VirtualMachineRecordView| m.id
}

/// The display projection of a machine record.
pub open spec fn vm_display_key() -> spec_fn(VirtualMachineRecordView) -> Seq<char> {
    |m: VirtualMachineRecordView| m.vnc_display
}

/// The name projection of an interface record.
pub open spec fn nic_ifname_key() -> spec_fn(NetworkInterfaceRecordView) -> Seq<char> {
    |n: NetworkInterfaceRecordView| n.ifname
}

/// The address projection of an address record.
pub open spec fn addr_address_key() -> spec_fn(IPv4AddressRecordView) -> Seq<char> {
    |a: IPv4AddressRecordView| a.address
}

/// The ownership-and-identifier pair of a drive record.
pub open spec fn drive_pair_key() -> spec_fn(DriveRecordView) -> (Seq<char>, Seq<char>) {
    |d: DriveRecordView| (d.vm_id, d.id)
}

/// The ownership-and-identifier pair of an interface record.
pub open spec fn nic_pair_key() -> spec_fn(NetworkInterfaceRecordView) -> (Seq<char>, Seq<char>) {
    |n: NetworkInterfaceRecordView| (n.vm_id, n.id)
}

/// Deleting a machine keeps the registry well-formed.
proof fn lemma_delete_wf(v: RegistryView, id: Seq<char>)
    requires
        wf_registry(v),
    ensures
        spec_delete_vm(v, id) matches Ok(v2) ==> wf_registry(v2),
{
    broadcast use vstd::prelude::Seq::lemma_filter_pred;
    broadcast use vstd::prelude::Seq::lemma_filter_contains;

    if has_vm(v, id) {
        let v2 = spec_delete_vm(v, id)->Ok_0;
        lemma_filter_distinct_keys(v.vms, vm_kept(id), vm_id_key());
        lemma_filter_distinct_keys(v.vms, vm_kept(id), vm_display_key());
        lemma_filter_distinct_keys(v.nics, nic_kept(id), nic_ifname_key());
        lemma_filter_distinct_keys(v.nics, nic_kept(id), nic_pair_key());
        lemma_filter_distinct_keys(v.drives, drive_kept(id), drive_pair_key());
        lemma_filter_distinct_keys(v.addrs, addr_kept(v, id), addr_address_key());
        lemma_filter_in_source(v.vms, vm_kept(id));
        lemma_filter_in_source(v.drives, drive_kept(id));
        lemma_filter_in_source(v.nics, nic_kept(id));
        lemma_filter_in_source(v.addrs, addr_kept(v, id));
        assert forall|i: int| 0 <= i < v2.drives.len() implies has_vm(
            v2,
            (#[trigger] v2.drives[i]).vm_id,
        ) by {
            let w = choose|w: int| 0 <= w < v.drives.len() && v.drives[w] == v2.drives[i];
            assert(drive_kept(id)(v2.drives[i]));
            assert(has_vm(v, v.drives[w].vm_id));
            let u = choose|u: int| 0 <= u < v.vms.len() && v.vms[u].id == v.drives[w].vm_id;
            assert(vm_kept(id)(v.vms[u]));
            assert(v.vms.filter(vm_kept(id)).contains(v.vms[u]));
            let z = choose|z: int| 0 <= z < v2.vms.len() && v2.vms[z] == v.vms[u];
            assert(v2.vms[z].id == v2.drives[i].vm_id);
        }
        assert forall|i: int| 0 <= i < v2.nics.len() implies has_vm(
            v2,
            (#[trigger] v2.nics[i]).vm_id,
        ) by {
            let w = choose|w: int| 0 <= w < v.nics.len() && v.nics[w] == v2.nics[i];
            assert(nic_kept(id)(v2.nics[i]));
            assert(has_vm(v, v.nics[w].vm_id));
            let u = choose|u: int| 0 <= u < v.vms.len() && v.vms[u].id == v.nics[w].vm_id;
            assert(vm_kept(id)(v.vms[u]));
            assert(v.vms.filter(vm_kept(id)).contains(v.vms[u]));
            let z = choose|z: int| 0 <= z < v2.vms.len() && v2.vms[z] == v.vms[u];
            assert(v2.vms[z].id == v2.nics[i].vm_id);
        }
        assert forall|i: int| 0 <= i < v2.addrs.len() implies ifname_used(
            v2,
            (#[trigger] v2.addrs[i]).ifname,
        ) by {
            let w = choose|w: int| 0 <= w < v.addrs.len() && v.addrs[w] == v2.addrs[i];
            assert(addr_kept(v, id)(v2.addrs[i]));
            assert(ifname_used(v, v.addrs[w].ifname));
            let u = choose|u: int| 0 <= u < v.nics.len() && v.nics[u].ifname == v.addrs[w].ifname;
            assert(v.nics[u].vm_id != id);
            assert(nic_kept(id)(v.nics[u]));
            assert(v.nics.filter(nic_kept(id)).contains(v.nics[u]));
            let z = choose|z: int| 0 <= z < v2.nics.len() && v2.nics[z] == v.nics[u];
            assert(v2.nics[z].ifname == v2.addrs[i].ifname);
        }
        assert forall|i: int| 0 <= i < v2.addrs.len() implies (#[trigger] v2.addrs[i]).netmask
            <= 32 by {
            let w = choose|w: int| 0 <= w < v.addrs.len() && v.addrs[w] == v2.addrs[i];
            assert(v.addrs[w].netmask <= 32);
        }
        assert(wf_registry(v2));
    }
}

/// Whether the requested interface identifiers are pairwise distinct.
fn nic_ids_distinct(list: &Vec<CreateNetworkInterface>) -> (r: bool)
    ensures
        r == distinct_nic_ids(list.deep_view()),
{
    let ghost s = list.deep_view();
    let mut i: usize = 0;
    while i < list.len()
        invariant
            i <= s.len(),
            s.len() == list.len(),
            s == list.deep_view(),
            forall|a: int, b: int| 0 <= a < i && a < b < s.len() ==> #[trigger] s[a].id != #[trigger] s[b].id,
        decreases list.len() - i,
    {
        let mut j: usize = i + 1;
        while j < list.len()
            invariant
                i < j <= s.len(),
                s.len() == list.len(),
                s == list.deep_view(),
                forall|b: int| i < b < j ==> s[i as int].id != #[trigger] s[b].id,
            decreases list.len() - j,
        {
            if list[i].id == list[j].id {
                proof {
                    assert(s[i as int].id == s[j as int].id);
                }
                return false;
            }
            j = j + 1;
        }
        i = i + 1;
    }
    proof {
        assert forall|a: int, b: int|
            0 <= a < s.len() && 0 <= b < s.len() && a != b implies #[trigger] s[a].id
            != #[trigger] s[b].id by {
            if a < b {
            } else {
            }
        }
    }
    true
}

/// Whether the requested drive identifiers are pairwise distinct.
fn drive_ids_distinct(list: &Vec<CreateDrive>) -> (r: bool)
    ensures
        r == distinct_drive_ids(list.deep_view()),
{
    let ghost s = list.deep_view();
    let mut i: usize = 0;
    while i < list.len()
        invariant
            i <= s.len(),
            s.len() == list.len(),
            s == list.deep_view(),
            forall|a: int, b: int| 0 <= a < i && a < b < s.len() ==> #[trigger] s[a].id != #[trigger] s[b].id,
        decreases list.len() - i,
    {
        let mut j: usize = i + 1;
        while j < list.len()
            invariant
                i < j <= s.len(),
                s.len() == list.len(),
                s == list.deep_view(),
                forall|b: int| i < b < j ==> s[i as int].id != #[trigger] s[b].id,
            decreases list.len() - j,
        {
            if list[i].id == list[j].id {
                proof {
                    assert(s[i as int].id == s[j as int].id);
                }
                return false;
            }
            j = j + 1;
        }
        i = i + 1;
    }
    proof {
        assert forall|a: int, b: int|
            0 <= a < s.len() && 0 <= b < s.len() && a != b implies #[trigger] s[a].id
            != #[trigger] s[b].id by {
            if a < b {
            } else {
            }
        }
    }
    true
}

impl VmRegistry {
    fn address_in_use(&self, s: &String) -> (r: bool)
        ensures
            r == address_used(self@, s@),
    {
        let mut i: usize = 0;
        while i < self.addrs.len()
            invariant
                i <= self.addrs.len(),
                forall|k: int| 0 <= k < i ==> #[trigger] self@.addrs[k].address != s@,
            decreases self.addrs.len() - i,
        {
            if self.addrs[i].address == *s {
                proof {
                    assert(self@.addrs[i as int].address == s@);
                }
                return true;
            }
            i = i + 1;
        }
        false
    }

    /// Binds a static IPv4 address to an interface. The interface must
    /// exist, the prefix length must be at most 32, and the address must
    /// not already be bound; each failure is reported distinctly and
    /// leaves the registry unchanged.
    pub fn add_ipv4_address(&mut self, addr: IPv4AddressRecord) -> (r: Result<(), Error>)
        requires
            old(self).wf(),
        ensures
            final(self).wf(),
            match spec_add_address(old(self)@, addr@) {
                Ok(v2) => r matches Ok(u) && final(self)@ == v2,
                Err(e) => r matches Err(e2) && e2 == e && final(self)@ == old(self)@,
            },
    {
        if !self.ifname_in_use(&addr.ifname) {
            return Err(Error::InterfaceNotFound);
        }
        if addr.netmask > 32 {
            return Err(Error::InvalidArgument);
        }
        if self.address_in_use(&addr.address) {
            return Err(Error::Conflict);
        }
        let ghost v0 = self@;
        let ghost a = addr@;
        self.addrs.push(addr);
        proof {
            let v2 = RegistryView { addrs: v0.addrs.push(a), ..v0 };
            assert(self@.addrs =~= v2.addrs);
            assert(self@ =~= v2);
            assert forall|i: int| 0 <= i < v2.addrs.len() implies ifname_used(
                v2,
                (#[trigger] v2.addrs[i]).ifname,
            ) by {
                if i < v0.addrs.len() {
                    assert(ifname_used(v0, v0.addrs[i].ifname));
                    let u = choose|u: int|
                        0 <= u < v0.nics.len() && v0.nics[u].ifname == v0.addrs[i].ifname;
                    assert(v2.nics[u].ifname == v2.addrs[i].ifname);
                } else {
                    assert(v2.addrs[i] == a);
                    let u = choose|u: int| 0 <= u < v0.nics.len() && v0.nics[u].ifname == a.ifname;
                    assert(v2.nics[u].ifname == v2.addrs[i].ifname);
                }
            }
            assert forall|i: int, j: int|
                0 <= i < v2.addrs.len() && 0 <= j < v2.addrs.len() && i != j implies (
            #[trigger] v2.addrs[i]).address != (#[trigger] v2.addrs[j]).address by {
                if i < v0.addrs.len() && j < v0.addrs.len() {
                } else if i < v0.addrs.len() {
                    assert(v2.addrs[j] == a);
                    assert(v0.addrs[i].address != a.address);
                } else {
                    assert(v2.addrs[i] == a);
                    assert(v0.addrs[j].address != a.address);
                }
            }
            assert forall|i: int| 0 <= i < v2.drives.len() implies has_vm(
                v2,
                (#[trigger] v2.drives[i]).vm_id,
            ) by {
                assert(has_vm(v0, v0.drives[i].vm_id));
                let u = choose|u: int| 0 <= u < v0.vms.len() && v0.vms[u].id == v0.drives[i].vm_id;
                assert(v2.vms[u].id == v2.drives[i].vm_id);
            }
            assert forall|i: int| 0 <= i < v2.nics.len() implies has_vm(
                v2,
                (#[trigger] v2.nics[i]).vm_id,
            ) by {
                assert(has_vm(v0, v0.nics[i].vm_id));
                let u = choose|u: int| 0 <= u < v0.vms.len() && v0.vms[u].id == v0.nics[i].vm_id;
                assert(v2.vms[u].id == v2.nics[i].vm_id);
            }
            assert(wf_registry(v2));
        }
        Ok(())
    }

    /// Deletes a virtual machine together with its drive rows, its
    /// interface rows and every address bound to them, so the display
    /// string and the interface names become free for reuse; unknown
    /// identifiers are a not-found error.
    pub fn delete_vm(&mut self, vm_id: &str) -> (r: Result<(), Error>)
        requires
            old(self).wf(),
        ensures
            final(self).wf(),
            match spec_delete_vm(old(self)@, vm_id@) {
                Ok(v2) => r matches Ok(u) && final(self)@ == v2,
                Err(e) => r matches Err(e2) && e2 == e && final(self)@ == old(self)@,
            },
    {
        let key: String = vm_id.to_owned();
        if !self.contains_vm_id(&key) {
            return Err(Error::VMNotFound);
        }
        let ghost v0 = self@;

        let ghost vpred = vm_kept(key@);
        let mut kept_vms: Vec<VirtualMachineRecord> = Vec::new();
        let mut i: usize = 0;
        while i < self.vms.len()
            invariant
                i <= self.vms.len(),
                vpred == vm_kept(key@),
                v0 == self@,
                kept_vms.deep_view() == self@.vms.take(i as int).filter(vpred),
            decreases self.vms.len() - i,
        {
            let ghost predeep = kept_vms.deep_view();
            proof {
                lemma_filter_take_step(self@.vms, vpred, i as int);
            }
            if !(self.vms[i].id == key) {
                kept_vms.push(self.vms[i].duplicate());
                proof {
                    assert(kept_vms.deep_view() =~= predeep.push(self@.vms[i as int]));
                }
            }
            i = i + 1;
        }

        let ghost dpred = drive_kept(key@);
        let mut kept_drives: Vec<DriveRecord> = Vec::new();
        let mut j: usize = 0;
        while j < self.drives.len()
            invariant
                j <= self.drives.len(),
                dpred == drive_kept(key@),
                v0 == self@,
                kept_drives.deep_view() == self@.drives.take(j as int).filter(dpred),
            decreases self.drives.len() - j,
        {
            let ghost predeep = kept_drives.deep_view();
            proof {
                lemma_filter_take_step(self@.drives, dpred, j as int);
            }
            if !(self.drives[j].vm_id == key) {
                kept_drives.push(self.drives[j].duplicate());
                proof {
                    assert(kept_drives.deep_view() =~= predeep.push(self@.drives[j as int]));
                }
            }
            j = j + 1;
        }

        let ghost npred = nic_kept(key@);
        let mut kept_nics: Vec<NetworkInterfaceRecord> = Vec::new();
        let mut k: usize = 0;
        while k < self.nics.len()
            invariant
                k <= self.nics.len(),
                npred == nic_kept(key@),
                v0 == self@,
                kept_nics.deep_view() == self@.nics.take(k as int).filter(npred),
            decreases self.nics.len() - k,
        {
            let ghost predeep = kept_nics.deep_view();
            proof {
                lemma_filter_take_step(self@.nics, npred, k as int);
            }
            if !(self.nics[k].vm_id == key) {
                kept_nics.push(self.nics[k].duplicate());
                proof {
                    assert(kept_nics.deep_view() =~= predeep.push(self@.nics[k as int]));
                }
            }
            k = k + 1;
        }

        let ghost apred = addr_kept(v0, key@);
        let mut kept_addrs: Vec<IPv4AddressRecord> = Vec::new();
        let mut m: usize = 0;
        while m < self.addrs.len()
            invariant
                m <= self.addrs.len(),
                apred == addr_kept(v0, key@),
                v0 == self@,
                kept_addrs.deep_view() == self@.addrs.take(m as int).filter(apred),
            decreases self.addrs.len() - m,
        {
            let ghost predeep = kept_addrs.deep_view();
            proof {
                lemma_filter_take_step(self@.addrs, apred, m as int);
            }
            if !self.ifname_belongs_to_vm(&key, &self.addrs[m].ifname) {
                kept_addrs.push(self.addrs[m].duplicate());
                proof {
                    assert(kept_addrs.deep_view() =~= predeep.push(self@.addrs[m as int]));
                }
            }
            m = m + 1;
        }

        proof {
            assert(self@.vms.take(self@.vms.len() as int) =~= self@.vms);
            assert(self@.drives.take(self@.drives.len() as int) =~= self@.drives);
            assert(self@.nics.take(self@.nics.len() as int) =~= self@.nics);
            assert(self@.addrs.take(self@.addrs.len() as int) =~= self@.addrs);
        }
        self.vms = kept_vms;
        self.drives = kept_drives;
        self.nics = kept_nics;
        self.addrs = kept_addrs;
        proof {
            let v2 = spec_delete_vm(v0, key@)->Ok_0;
            assert(self@ =~= v2);
            lemma_delete_wf(v0, key@);
        }
        Ok(())
    }

    fn ifname_belongs_to_vm(&self, id: &String, f: &String) -> (r: bool)
        ensures
            r == ifname_of_vm(self@, id@, f@),
    {
        let mut i: usize = 0;
        while i < self.nics.len()
            invariant
                i <= self.nics.len(),
                forall|k: int|
                    0 <= k < i ==> !((#[trigger] self@.nics[k]).vm_id == id@ && self@.nics[k].ifname
                        == f@),
            decreases self.nics.len() - i,
        {
            if self.nics[i].vm_id == *id && self.nics[i].ifname == *f {
                proof {
                    assert(self@.nics[i as int].vm_id == id@ && self@.nics[i as int].ifname == f@);
                }
                return true;
            }
            i = i + 1;
        }
        false
    }
}

/// In any well-formed registry — so after every sequence of creations
/// with no intervening deletion — the allocated display strings are
/// pairwise distinct and the allocated interface names are pairwise
/// distinct.
pub proof fn lemma_allocations_pairwise_distinct(v: RegistryView)
    requires
        wf_registry(v),
    ensures
        forall|i: int, j: int|
            0 <= i < v.vms.len() && 0 <= j < v.vms.len() && i != j
                ==> #[trigger] v.vms[i].vnc_display != #[trigger] v.vms[j].vnc_display,
        forall|i: int, j: int|
            0 <= i < v.nics.len() && 0 <= j < v.nics.len() && i != j
                ==> #[trigger] v.nics[i].ifname != #[trigger] v.nics[j].ifname,
{
}

/// Deleting a machine frees its display string: no surviving record
/// holds it, so a later creation may be allocated the same display.
pub proof fn lemma_delete_frees_display(v: RegistryView, id: Seq<char>, i: int)
    requires
        wf_registry(v),
        0 <= i < v.vms.len(),
        v.vms[i].id == id,
    ensures
        spec_delete_vm(v, id) matches Ok(v2) ==> !display_used(v2, v.vms[i].vnc_display),
{
    if has_vm(v, id) {
        let v2 = spec_delete_vm(v, id)->Ok_0;
        lemma_filter_in_source(v.vms, vm_kept(id));
        broadcast use vstd::prelude::Seq::lemma_filter_pred;

        assert forall|w: int| 0 <= w < v2.vms.len() implies (#[trigger] v2.vms[w]).vnc_display
            != v.vms[i].vnc_display by {
            let u = choose|u: int| 0 <= u < v.vms.len() && v.vms[u] == v2.vms[w];
            assert(vm_kept(id)(v2.vms[w]));
            assert(v.vms[u].id != id);
            assert(u != i);
            assert(v.vms[u].vnc_display != v.vms[i].vnc_display);
        }
    }
}

/// Deleting a machine frees the interface names its interfaces held.
pub proof fn lemma_delete_frees_ifname(v: RegistryView, id: Seq<char>, i: int)
    requires
        wf_registry(v),
        0 <= i < v.nics.len(),
        v.nics[i].vm_id == id,
    ensures
        spec_delete_vm(v, id) matches Ok(v2) ==> !ifname_used(v2, v.nics[i].ifname),
{
    if has_vm(v, id) {
        let v2 = spec_delete_vm(v, id)->Ok_0;
        lemma_filter_in_source(v.nics, nic_kept(id));
        broadcast use vstd::prelude::Seq::lemma_filter_pred;

        assert forall|w: int| 0 <= w < v2.nics.len() implies (#[trigger] v2.nics[w]).ifname
            != v.nics[i].ifname by {
            let u = choose|u: int| 0 <= u < v.nics.len() && v.nics[u] == v2.nics[w];
            assert(nic_kept(id)(v2.nics[w]));
            assert(v.nics[u].vm_id != id);
            assert(u != i);
            assert(v.nics[u].ifname != v.nics[i].ifname);
        }
    }
}

} // verus!
