use yave::Error;
use yave::launch::{DiskMediaKind, DriveBus};
use yave::mac::get_mac;
use md5::Digest;
use yave::registry::{
    CreateDrive, CreateNetworkInterface, CreateVirtualMachine, IPv4AddressRecord, VmRegistry,
};

fn simple_vm(id: &str, nics: usize, drives: usize) -> CreateVirtualMachine {
    let mut network_interfaces = Vec::new();
    for i in 0..nics {
        network_interfaces.push(CreateNetworkInterface { id: format!("net{}", i) });
    }
    let mut drive_list = Vec::new();
    for i in 0..drives {
        drive_list.push(CreateDrive {
            id: format!("hd{}", i),
            boot_order: Some(i as u32 + 1),
            drive_bus: DriveBus::VirtioBlk { boot_index: Some(i as u32 + 1) },
        });
    }
    CreateVirtualMachine {
        id: id.to_string(),
        hostname: id.to_string(),
        vcpu: 1,
        memory: 512,
        ovmf: false,
        network_interfaces,
        drives: drive_list,
    }
}

#[test]
fn first_vm_gets_display_one() {
    let mut reg = VmRegistry::new();
    let mut vm = simple_vm("test", 1, 1);
    vm.vcpu = 2;
    vm.memory = 1024;
    vm.drives[0] = CreateDrive {
        id: "hd0".to_string(),
        boot_order: None,
        drive_bus: DriveBus::VirtioBlk { boot_index: None },
    };
    let rec = reg.create_vm(vm).unwrap();
    assert_eq!(rec.id, "test");
    assert_eq!(rec.vcpu, 2);
    assert_eq!(rec.memory, 1024);
    assert_eq!(rec.vnc_display, ":1");
    let (_, drives, nics) = reg.get_all_about_vm("test").unwrap();
    assert_eq!(drives.len(), 1);
    assert_eq!(drives[0].id, "hd0");
    assert_eq!(nics.len(), 1);
    assert_eq!(nics[0].ifname, "yave0");
    assert!(nics[0].mac_address.starts_with("52:54:"));
    assert_eq!(nics[0].mac_address.len(), 17);
}

#[test]
fn allocations_are_pairwise_distinct() {
    let mut reg = VmRegistry::new();
    for i in 0..5 {
        reg.create_vm(simple_vm(&format!("vm{}", i), 2, 1)).unwrap();
    }
    let vms = reg.get_virtual_machines();
    assert_eq!(vms.len(), 5);
    for i in 0..vms.len() {
        for j in 0..vms.len() {
            if i != j {
                assert_ne!(vms[i].vnc_display, vms[j].vnc_display);
            }
        }
    }
    let mut ifnames = Vec::new();
    for i in 0..5 {
        let (_, _, nics) = reg.get_all_about_vm(&format!("vm{}", i)).unwrap();
        for n in nics {
            ifnames.push(n.ifname);
        }
    }
    assert_eq!(ifnames.len(), 10);
    for i in 0..ifnames.len() {
        for j in 0..ifnames.len() {
            if i != j {
                assert_ne!(ifnames[i], ifnames[j]);
            }
        }
    }
}

#[test]
fn displays_allocated_in_ascending_order() {
    let mut reg = VmRegistry::new();
    let a = reg.create_vm(simple_vm("a", 0, 0)).unwrap();
    let b = reg.create_vm(simple_vm("b", 0, 0)).unwrap();
    let c = reg.create_vm(simple_vm("c", 0, 0)).unwrap();
    assert_eq!(a.vnc_display, ":1");
    assert_eq!(b.vnc_display, ":2");
    assert_eq!(c.vnc_display, ":3");
}

#[test]
fn delete_frees_display_for_reuse() {
    let mut reg = VmRegistry::new();
    let a = reg.create_vm(simple_vm("a", 1, 0)).unwrap();
    reg.create_vm(simple_vm("b", 1, 0)).unwrap();
    assert_eq!(a.vnc_display, ":1");
    reg.delete_vm("a").unwrap();
    let c = reg.create_vm(simple_vm("c", 1, 0)).unwrap();
    assert_eq!(c.vnc_display, ":1");
    let (_, _, nics) = reg.get_all_about_vm("c").unwrap();
    assert_eq!(nics[0].ifname, "yave0");
}

#[test]
fn duplicate_vm_id_is_a_conflict() {
    let mut reg = VmRegistry::new();
    reg.create_vm(simple_vm("test", 0, 0)).unwrap();
    let before = reg.get_virtual_machines().len();
    assert_eq!(reg.create_vm(simple_vm("test", 1, 1)).unwrap_err(), Error::Conflict);
    assert_eq!(reg.get_virtual_machines().len(), before);
}

#[test]
fn duplicate_drive_ids_are_a_conflict() {
    let mut reg = VmRegistry::new();
    let mut vm = simple_vm("test", 0, 2);
    vm.drives[1].id = "hd0".to_string();
    assert_eq!(reg.create_vm(vm).unwrap_err(), Error::Conflict);
    assert_eq!(reg.get_virtual_machines().len(), 0);
}

#[test]
fn unknown_vm_is_not_found() {
    let mut reg = VmRegistry::new();
    assert_eq!(reg.get_all_about_vm("nope").unwrap_err(), Error::VMNotFound);
    assert_eq!(reg.delete_vm("nope").unwrap_err(), Error::VMNotFound);
    assert!(reg.get_vm_by_id("nope").is_none());
}

#[test]
fn reverse_lookup_by_ifname() {
    let mut reg = VmRegistry::new();
    reg.create_vm(simple_vm("a", 1, 0)).unwrap();
    reg.create_vm(simple_vm("b", 1, 0)).unwrap();
    let owner = reg.get_vm_by_ifname("yave1").unwrap();
    assert_eq!(owner.id, "b");
    assert!(reg.get_vm_by_ifname("yave9").is_none());
}

#[test]
fn addresses_belong_to_interfaces() {
    let mut reg = VmRegistry::new();
    reg.create_vm(simple_vm("a", 2, 0)).unwrap();
    let ok = reg.add_ipv4_address(IPv4AddressRecord {
        address: "192.0.2.1".to_string(),
        ifname: "yave0".to_string(),
        netmask: 24,
        gateway: Some("192.0.2.254".to_string()),
    });
    assert!(ok.is_ok());
    assert_eq!(
        reg.add_ipv4_address(IPv4AddressRecord {
            address: "192.0.2.2".to_string(),
            ifname: "missing0".to_string(),
            netmask: 24,
            gateway: None,
        })
        .unwrap_err(),
        Error::InterfaceNotFound
    );
    assert_eq!(
        reg.add_ipv4_address(IPv4AddressRecord {
            address: "192.0.2.3".to_string(),
            ifname: "yave0".to_string(),
            netmask: 33,
            gateway: None,
        })
        .unwrap_err(),
        Error::InvalidArgument
    );
    assert_eq!(
        reg.add_ipv4_address(IPv4AddressRecord {
            address: "192.0.2.1".to_string(),
            ifname: "yave1".to_string(),
            netmask: 32,
            gateway: None,
        })
        .unwrap_err(),
        Error::Conflict
    );
    let (_, _, _, addrs) = reg.get_vm_full("a").unwrap();
    assert_eq!(addrs.len(), 1);
    assert_eq!(addrs[0].address, "192.0.2.1");
    assert_eq!(addrs[0].netmask, 24);
}

#[test]
fn full_join_concatenates_addresses_per_interface() {
    let mut reg = VmRegistry::new();
    reg.create_vm(simple_vm("a", 2, 1)).unwrap();
    for (addr, ifname) in [
        ("10.0.0.1", "yave1"),
        ("10.0.0.2", "yave0"),
        ("10.0.0.3", "yave1"),
    ] {
        reg.add_ipv4_address(IPv4AddressRecord {
            address: addr.to_string(),
            ifname: ifname.to_string(),
            netmask: 24,
            gateway: None,
        })
        .unwrap();
    }
    let (_, _, nics, addrs) = reg.get_vm_full("a").unwrap();
    assert_eq!(nics[0].ifname, "yave0");
    assert_eq!(nics[1].ifname, "yave1");
    // addresses come per interface, in interface order
    assert_eq!(addrs.len(), 3);
    assert_eq!(addrs[0].address, "10.0.0.2");
    assert_eq!(addrs[1].address, "10.0.0.1");
    assert_eq!(addrs[2].address, "10.0.0.3");
}

#[test]
fn delete_cascades_to_drives_interfaces_and_addresses() {
    let mut reg = VmRegistry::new();
    reg.create_vm(simple_vm("a", 1, 2)).unwrap();
    reg.create_vm(simple_vm("b", 1, 1)).unwrap();
    reg.add_ipv4_address(IPv4AddressRecord {
        address: "10.0.0.1".to_string(),
        ifname: "yave0".to_string(),
        netmask: 24,
        gateway: None,
    })
    .unwrap();
    reg.delete_vm("a").unwrap();
    assert!(reg.get_vm_by_id("a").is_none());
    assert!(reg.get_vm_by_ifname("yave0").is_none());
    let b = reg.get_vm_by_id("b").unwrap();
    assert_eq!(b.id, "b");
    let (_, drives, nics, addrs) = reg.get_vm_full("b").unwrap();
    assert_eq!(drives.len(), 1);
    assert_eq!(nics.len(), 1);
    assert_eq!(addrs.len(), 0);
}

#[test]
fn mac_is_deterministic_and_prefixed() {
    let a = get_mac("yave0");
    let b = get_mac("yave0");
    let c = get_mac("yave1");
    assert_eq!(a, b);
    assert_ne!(a, c);
    assert!(a.starts_with("52:54:"));
    assert_eq!(a.len(), 17);
}

#[test]
fn mac_matches_digest_of_name() {
    let h = md5::Md5::digest("yave0".as_bytes());
    let expected = format!("52:54:{:02x}:{:02x}:{:02x}:{:02x}", h[0], h[1], h[2], h[3]);
    assert_eq!(get_mac("yave0"), expected);
}

#[test]
fn ide_and_virtio_buses_are_kept() {
    let mut reg = VmRegistry::new();
    let vm = CreateVirtualMachine {
        id: "m".to_string(),
        hostname: "m".to_string(),
        vcpu: 1,
        memory: 256,
        ovmf: true,
        network_interfaces: vec![],
        drives: vec![
            CreateDrive {
                id: "hd0".to_string(),
                boot_order: Some(1),
                drive_bus: DriveBus::VirtioBlk { boot_index: Some(1) },
            },
            CreateDrive {
                id: "cd0".to_string(),
                boot_order: Some(2),
                drive_bus: DriveBus::Ide {
                    media_type: DiskMediaKind::Cdrom,
                    boot_index: Some(2),
                },
            },
        ],
    };
    reg.create_vm(vm).unwrap();
    let (rec, drives, _) = reg.get_all_about_vm("m").unwrap();
    assert!(rec.ovmf);
    assert!(matches!(drives[0].drive_bus, DriveBus::VirtioBlk { boot_index: Some(1) }));
    assert!(matches!(
        drives[1].drive_bus,
        DriveBus::Ide { media_type: DiskMediaKind::Cdrom, boot_index: Some(2) }
    ));
}

#[test]
fn mixed_boot_scheme_is_rejected() {
    let mut reg = VmRegistry::new();
    let mut vm = simple_vm("m", 0, 2);
    vm.drives[1].drive_bus = DriveBus::VirtioBlk { boot_index: None };
    assert_eq!(reg.create_vm(vm).unwrap_err(), Error::InvalidArgument);
    assert_eq!(reg.get_virtual_machines().len(), 0);
}

#[test]
fn sparse_boot_indices_are_rejected() {
    let mut reg = VmRegistry::new();
    let mut vm = simple_vm("m", 0, 2);
    vm.drives[1].drive_bus = DriveBus::VirtioBlk { boot_index: Some(5) };
    assert_eq!(reg.create_vm(vm).unwrap_err(), Error::InvalidArgument);
}

#[test]
fn unordered_drives_without_indices_are_accepted() {
    let mut reg = VmRegistry::new();
    let mut vm = simple_vm("m", 0, 2);
    vm.drives[0].drive_bus = DriveBus::VirtioBlk { boot_index: None };
    vm.drives[1].drive_bus = DriveBus::Ide {
        media_type: DiskMediaKind::Disk,
        boot_index: None,
    };
    assert!(reg.create_vm(vm).is_ok());
}
