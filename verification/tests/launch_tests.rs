use yave::config::{API, CLI, Config, OVMF};
use yave::launch::{
    DiskMediaKind, DriveBus, DriveConfig, NetdevScripts, NetworkConfig, VmLaunchRequest,
    build_launch_request,
};
use yave::registry::{CreateDrive, CreateNetworkInterface, CreateVirtualMachine, VmRegistry};
use yave::runner::RunFactory;
use yave::storage::{DriveInstallMode, InstallOptions, StorageAction, VmStorage};
use yave::tools::{GenIsoImage, QemuImg, is_absolute_path};
use yave::nft::{Family, Nft};
use yave::qemu_args::ArgValue;
use yave::text::u32_to_dec;
use yave::vm_input::{CreateDriveOptions, CreateVirtualMachineInput, Passwords};

fn test_config() -> Config {
    Config {
        cli: CLI {
            bin: "/usr/bin/qemu-system-x86_64".to_string(),
            img: "/usr/bin/qemu-img".to_string(),
            genisoimage: "/usr/bin/genisoimage".to_string(),
        },
        ovmf: OVMF {
            code: "/usr/share/OVMF_CODE.fd".to_string(),
            vars: "/var/lib/test/OVMF_VARS.fd".to_string(),
        },
        api: API { groups: vec!["kvm".to_string()], listen: "127.0.0.1:8000".to_string() },
    }
}

fn strings(v: &[&str]) -> Vec<String> {
    v.iter().map(|s| s.to_string()).collect()
}

#[test]
fn launch_request_reproduces_declared_entries_in_order() {
    let mut reg = VmRegistry::new();
    let vm = CreateVirtualMachine {
        id: "web".to_string(),
        hostname: "web.example".to_string(),
        vcpu: 4,
        memory: 2048,
        ovmf: true,
        network_interfaces: vec![
            CreateNetworkInterface { id: "net0".to_string() },
            CreateNetworkInterface { id: "net1".to_string() },
        ],
        drives: vec![
            CreateDrive {
                id: "hd0".to_string(),
                boot_order: Some(1),
                drive_bus: DriveBus::VirtioBlk { boot_index: Some(1) },
            },
            CreateDrive {
                id: "cd0".to_string(),
                boot_order: Some(2),
                drive_bus: DriveBus::Ide {
                    media_type: DiskMediaKind::Cdrom,
                    boot_index: Some(2),
                },
            },
        ],
    };
    reg.create_vm(vm).unwrap();
    let (rec, drives, nics, _) = reg.get_vm_full("web").unwrap();
    let storage = VmStorage::new("/var/lib/yave", "/usr/bin/qemu-img");
    let scripts = NetdevScripts { up: "/etc/yave/up".to_string(), down: "/etc/yave/down".to_string() };
    let req = build_launch_request(&rec, &drives, &nics, &storage, &scripts);
    assert_eq!(req.id, "web");
    assert_eq!(req.hostname, "web.example");
    assert_eq!(req.vcpu, 4);
    assert_eq!(req.memory, 2048);
    assert!(req.ovmf);
    assert_eq!(req.vnc.as_deref(), Some(":1"));
    assert_eq!(req.drives.len(), 2);
    assert_eq!(req.drives[0].id, "hd0");
    assert_eq!(req.drives[0].path, "/var/lib/yave/web.vm/hd0.img");
    assert!(matches!(req.drives[0].drive_media, DriveBus::VirtioBlk { boot_index: Some(1) }));
    assert_eq!(req.drives[1].id, "cd0");
    assert!(matches!(
        req.drives[1].drive_media,
        DriveBus::Ide { media_type: DiskMediaKind::Cdrom, boot_index: Some(2) }
    ));
    assert_eq!(req.networks.len(), 2);
    assert_eq!(req.networks[0].id, "net0");
    assert_eq!(req.networks[0].ifname, "yave0");
    assert_eq!(req.networks[1].id, "net1");
    assert_eq!(req.networks[1].ifname, "yave1");
    assert_eq!(req.networks[0].mac, nics[0].mac_address);
    assert_eq!(req.networks[0].netdev_up_script.as_deref(), Some("/etc/yave/up"));
    assert_eq!(req.networks[0].netdev_down_script.as_deref(), Some("/etc/yave/down"));
}

#[test]
fn qemu_command_is_exactly_the_documented_vector() {
    let config = test_config();
    let factory = RunFactory::new("/run/yave", "box", &config, "YAVE_VM_NAME");
    assert_eq!(factory.get_socket_path(), "/run/yave/box.sock");
    assert_eq!(factory.get_pidfile_path(), "/run/yave/box.pid");
    let req = VmLaunchRequest {
        id: "box".to_string(),
        hostname: "box".to_string(),
        ovmf: true,
        vcpu: 2,
        memory: 1024,
        vnc: Some(":3".to_string()),
        drives: vec![
            DriveConfig {
                id: "hd0".to_string(),
                path: "/var/lib/yave/box.vm/hd0.img".to_string(),
                drive_media: DriveBus::VirtioBlk { boot_index: Some(1) },
            },
            DriveConfig {
                id: "cd0".to_string(),
                path: "/var/lib/yave/box.vm/cd0.img".to_string(),
                drive_media: DriveBus::Ide {
                    media_type: DiskMediaKind::Cdrom,
                    boot_index: None,
                },
            },
        ],
        networks: vec![NetworkConfig {
            id: "net0".to_string(),
            mac: "52:54:aa:bb:cc:dd".to_string(),
            ifname: "yave0".to_string(),
            netdev_up_script: Some("/etc/yave/up".to_string()),
            netdev_down_script: None,
        }],
    };
    let args = factory.build_qemu_command(&req);
    let expected = strings(&[
        "/usr/bin/qemu-system-x86_64",
        "-enable-kvm",
        "-nodefaults",
        "-qmp",
        "unix:/run/yave/box.sock,server=on,wait=off",
        "-pidfile",
        "/run/yave/box.pid",
        "-daemonize",
        "-name",
        "box",
        "-m",
        "1024M",
        "-cpu",
        "host",
        "-smp",
        "2",
        "-device",
        "virtio-vga",
        "-drive",
        "if=pflash,format=raw,readonly=on,file=/usr/share/OVMF_CODE.fd",
        "-drive",
        "if=pflash,format=raw,file=/var/lib/test/OVMF_VARS.fd",
        "-drive",
        "file=/var/lib/yave/box.vm/hd0.img,if=none,id=hd0",
        "-device",
        "virtio-blk-pci,drive=hd0,bootindex=1",
        "-drive",
        "file=/var/lib/yave/box.vm/cd0.img,if=none,id=cd0",
        "-device",
        "ide-cd,drive=cd0",
        "-netdev",
        "tap,ifname=yave0,id=net0,script=/etc/yave/up,downscript=no",
        "-device",
        "e1000,netdev=net0,mac=52:54:aa:bb:cc:dd",
        "-vnc",
        ":3,password=on",
    ]);
    assert_eq!(args, expected);
    let (env_name, env_value) = factory.env_pair(&req);
    assert_eq!(env_name, "YAVE_VM_NAME");
    assert_eq!(env_value, "box");
}

#[test]
fn firmware_and_display_flags_are_optional() {
    let config = test_config();
    let factory = RunFactory::new("/run/yave", "bare", &config, "YAVE_VM_NAME");
    let req = VmLaunchRequest {
        id: "bare".to_string(),
        hostname: "bare".to_string(),
        ovmf: false,
        vcpu: 1,
        memory: 256,
        vnc: None,
        drives: vec![],
        networks: vec![],
    };
    let args = factory.build_qemu_command(&req);
    let expected = strings(&[
        "/usr/bin/qemu-system-x86_64",
        "-enable-kvm",
        "-nodefaults",
        "-qmp",
        "unix:/run/yave/bare.sock,server=on,wait=off",
        "-pidfile",
        "/run/yave/bare.pid",
        "-daemonize",
        "-name",
        "bare",
        "-m",
        "256M",
        "-cpu",
        "host",
        "-smp",
        "1",
        "-device",
        "virtio-vga",
    ]);
    assert_eq!(args, expected);
}

#[test]
fn device_flags_follow_their_backends() {
    let config = test_config();
    let factory = RunFactory::new("/run", "m", &config, "E");
    let req = VmLaunchRequest {
        id: "m".to_string(),
        hostname: "m".to_string(),
        ovmf: false,
        vcpu: 1,
        memory: 128,
        vnc: None,
        drives: vec![
            DriveConfig {
                id: "a".to_string(),
                path: "/p/a.img".to_string(),
                drive_media: DriveBus::VirtioBlk { boot_index: None },
            },
            DriveConfig {
                id: "b".to_string(),
                path: "/p/b.img".to_string(),
                drive_media: DriveBus::Ide {
                    media_type: DiskMediaKind::Disk,
                    boot_index: Some(7),
                },
            },
        ],
        networks: vec![],
    };
    let args = factory.build_qemu_command(&req);
    let a = args.iter().position(|s| s == "file=/p/a.img,if=none,id=a").unwrap();
    assert_eq!(args[a + 1], "-device");
    assert_eq!(args[a + 2], "virtio-blk-pci,drive=a");
    let b = args.iter().position(|s| s == "file=/p/b.img,if=none,id=b").unwrap();
    assert_eq!(args[b + 1], "-device");
    assert_eq!(args[b + 2], "ide-hd,drive=b,bootindex=7");
}

#[test]
fn storage_paths_and_install_plan() {
    let storage = VmStorage::new("/srv/vms", "/usr/bin/qemu-img");
    assert_eq!(storage.path_for_vm("web"), "/srv/vms/web.vm");
    assert_eq!(storage.drive_image_path("web", "hd0"), "/srv/vms/web.vm/hd0.img");
    let plan = storage.install_vm_plan(
        "web",
        &InstallOptions {
            drives: vec![
                DriveInstallMode::New { id: "hd0".to_string(), size: 10240 },
                DriveInstallMode::Existing {
                    id: "hd1".to_string(),
                    resize: 4096,
                    image: "debian".to_string(),
                },
                DriveInstallMode::Existing {
                    id: "hd2".to_string(),
                    resize: 0,
                    image: "alpine".to_string(),
                },
            ],
        },
    );
    assert_eq!(plan.len(), 5);
    assert!(matches!(&plan[0], StorageAction::EnsureDir { path } if path == "/srv/vms/web.vm"));
    assert!(matches!(&plan[1], StorageAction::Run { args } if *args == strings(&[
        "/usr/bin/qemu-img", "create", "-f", "raw", "/srv/vms/web.vm/hd0.img", "10240M",
    ])));
    assert!(matches!(&plan[2], StorageAction::Copy { src, dest }
        if src == "/srv/vms/debian.img" && dest == "/srv/vms/web.vm/hd1.img"));
    assert!(matches!(&plan[3], StorageAction::Run { args } if *args == strings(&[
        "/usr/bin/qemu-img", "resize", "/srv/vms/web.vm/hd1.img", "4096M",
    ])));
    assert!(matches!(&plan[4], StorageAction::Copy { src, dest }
        if src == "/srv/vms/alpine.img" && dest == "/srv/vms/web.vm/hd2.img"));
}

#[test]
fn image_tool_commands() {
    assert!(is_absolute_path("/usr/bin/qemu-img"));
    assert!(!is_absolute_path("qemu-img"));
    assert!(!is_absolute_path(""));
    let img = QemuImg::new("/usr/bin/qemu-img");
    assert_eq!(
        img.create_command(2048, "/srv/a.img"),
        strings(&["/usr/bin/qemu-img", "create", "-f", "raw", "/srv/a.img", "2048M"])
    );
    assert_eq!(
        img.convert_command("/srv/a.img", "/srv/b.img"),
        strings(&["/usr/bin/qemu-img", "convert", "-O", "raw", "/srv/a.img", "/srv/b.img"])
    );
    assert_eq!(
        img.resize_command(4096, "/srv/a.img"),
        strings(&["/usr/bin/qemu-img", "resize", "/srv/a.img", "4096M"])
    );
    let iso = GenIsoImage::new("/usr/bin/genisoimage");
    assert_eq!(
        iso.create_command("/tmp/seed", "/tmp/seed.iso", "cidata"),
        strings(&[
            "/usr/bin/genisoimage",
            "-output",
            "/tmp/seed.iso",
            "-rational-rock",
            "-joliet",
            "-volid",
            "cidata",
            "/tmp/seed",
        ])
    );
}

#[test]
fn firewall_builder() {
    let args = Nft::new("/usr/sbin/nft").add().table(Family::Inet, "filter").build();
    assert_eq!(args, strings(&["/usr/sbin/nft", "add", "table", "inet", "filter"]));
}

#[test]
fn argument_value_builder() {
    let v = ArgValue::new()
        .arg("virtio-blk-pci")
        .key_value("drive", "hd0")
        .key_value_opt("bootindex", Some(3))
        .build();
    assert_eq!(v, "virtio-blk-pci,drive=hd0,bootindex=3");
    let w = ArgValue::new().arg("tap").key_value_opt("bootindex", None).build();
    assert_eq!(w, "tap");
    let empty = ArgValue::new().build();
    assert_eq!(empty, "");
}

#[test]
fn decimal_rendering() {
    assert_eq!(u32_to_dec(0), "0");
    assert_eq!(u32_to_dec(7), "7");
    assert_eq!(u32_to_dec(42), "42");
    assert_eq!(u32_to_dec(1000), "1000");
    assert_eq!(u32_to_dec(4294967295), "4294967295");
}

#[test]
fn input_builder_defaults_and_updates() {
    let input = CreateVirtualMachineInput::new("box")
        .hostname("box.example")
        .vcpu(4)
        .memory(2048)
        .passwords(Passwords { root: "SECRET-REDACTED".to_string(), vnc: "SECRET-REDACTED".to_string() })
        .drive(CreateDriveOptions::Empty { size: 10240 })
        .drive(CreateDriveOptions::FromPreset { size: 8192, preset: "debian".to_string() });
    assert_eq!(input.get_name(), "box");
}
