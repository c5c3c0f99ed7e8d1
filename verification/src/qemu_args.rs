//! Builders for hypervisor process invocations: the argument vector of
//! the virtual-machine binary and of the disk-image tool, with every flag
//! pinned down to the exact strings it contributes.

use vstd::prelude::*;
use crate::launch::DiskMediaKind;
use crate::text::{spec_dec, push_dec, push_str_copy};

verus! {

/// The suffix `,bootindex=N` when a firmware boot index was requested,
/// and nothing otherwise.
pub open spec fn spec_bootindex(b: Option<u32>) -> Seq<char> {
    match b {
        Some(n) => ",bootindex="@ + spec_dec(n as nat),
        None => Seq::empty(),
    }
}

/// The device string of a legacy-bus drive: disk or optical, bound to
/// its backing store by identifier, with an optional boot index.
pub open spec fn spec_ide_device(id: Seq<char>, b: Option<u32>, media: DiskMediaKind)
    -> Seq<char> {
    (match media {
        DiskMediaKind::Disk => "ide-hd"@,
        DiskMediaKind::Cdrom => "ide-cd"@,
    }) + ",drive="@ + id + spec_bootindex(b)
}

/// The device string of a paravirtualized block drive.
pub open spec fn spec_virtio_blk_device(id: Seq<char>, b: Option<u32>) -> Seq<char> {
    "virtio-blk-pci,drive="@ + id + spec_bootindex(b)
}

/// The backend string of a tap-backed network device: interface name,
/// backend identifier, and the up and down scripts, `no` when absent.
pub open spec fn spec_netdev_tap(
    id: Seq<char>,
    script: Option<Seq<char>>,
    downscript: Option<Seq<char>>,
    ifname: Seq<char>,
) -> Seq<char> {
    "tap,ifname="@ + ifname + ",id="@ + id + ",script="@ + (match script {
        Some(s) => s,
        None => "no"@,
    }) + ",downscript="@ + (match downscript {
        Some(s) => s,
        None => "no"@,
    })
}

/// The device string binding a network device to its backend and MAC.
pub open spec fn spec_network_device(id: Seq<char>, mac: Seq<char>) -> Seq<char> {
    "e1000,netdev="@ + id + ",mac="@ + mac
}

fn push_bootindex(out: &mut String, b: Option<u32>)
    ensures
        final(out)@ == old(out)@ + spec_bootindex(b),
{
    match b {
        Some(n) => {
            push_str_copy(out, ",bootindex=");
            push_dec(out, n as u64);
            proof {
                assert(final(out)@ =~= old(out)@ + spec_bootindex(b));
            }
        },
        None => {
            proof {
                assert(final(out)@ =~= old(out)@ + spec_bootindex(b));
            }
        },
    }
}

/// An argument vector under construction for the hypervisor binary; each
/// method appends exactly the flags it stands for.
#[derive(Debug)]
pub struct KVM {
    args: Vec<String>,
}

impl View for KVM {
    type V = Seq<Seq<char>>;

    closed spec fn view(&self) -> Seq<Seq<char>> {
        self.args.deep_view()
    }
}

impl KVM {
    /// A vector holding only the binary itself.
    pub fn new(binary: &str) -> (r: Self)
        ensures
            r@ == seq![binary@],
    {
        let mut args: Vec<String> = Vec::new();
        args.push(binary.to_owned());
        let r = KVM { args };
        proof {
            assert(r@ =~= seq![binary@]);
        }
        r
    }

    /// Appends one verbatim argument.
    pub fn arg(self, arg: &str) -> (r: Self)
        ensures
            r@ == self@.push(arg@),
    {
        let mut s = self;
        s.args.push(arg.to_owned());
        proof {
            assert(s@ =~= self@.push(arg@));
        }
        s
    }

    fn arg_owned(self, arg: String) -> (r: Self)
        ensures
            r@ == self@.push(arg@),
    {
        let mut s = self;
        let ghost a = arg@;
        s.args.push(arg);
        proof {
            assert(s@ =~= self@.push(a));
        }
        s
    }

    /// The finished argument vector.
    pub fn build(self) -> (r: Vec<String>)
        ensures
            r.deep_view() == self@,
    {
        self.args
    }

    /// The machine-acceleration flag.
    pub fn enable_kvm(self) -> (r: Self)
        ensures
            r@ == self@.push("-enable-kvm"@),
    {
        self.arg("-enable-kvm")
    }

    /// The no-default-devices flag.
    pub fn nodefaults(self) -> (r: Self)
        ensures
            r@ == self@.push("-nodefaults"@),
    {
        self.arg("-nodefaults")
    }

    /// The flag detaching the process from its parent after boot.
    pub fn daemonize(self) -> (r: Self)
        ensures
            r@ == self@.push("-daemonize"@),
    {
        self.arg("-daemonize")
    }

    /// The guest name.
    pub fn name(self, name: &str) -> (r: Self)
        ensures
            r@ == self@ + seq!["-name"@, name@],
    {
        let r = self.arg("-name").arg(name);
        proof {
            assert(r@ =~= self@ + seq!["-name"@, name@]);
        }
        r
    }

    /// The memory size in megabytes.
    pub fn memory(self, megabytes: u32) -> (r: Self)
        ensures
            r@ == self@ + seq!["-m"@, spec_dec(megabytes as nat) + "M"@],
    {
        let mut value = crate::text::u32_to_dec(megabytes);
        push_str_copy(&mut value, "M");
        let r = self.arg("-m").arg_owned(value);
        proof {
            assert(r@ =~= self@ + seq!["-m"@, spec_dec(megabytes as nat) + "M"@]);
        }
        r
    }

    /// The host-CPU flag and the number of cores.
    pub fn smp(self, cores: u32) -> (r: Self)
        ensures
            r@ == self@ + seq!["-cpu"@, "host"@, "-smp"@, spec_dec(cores as nat)],
    {
        let value = crate::text::u32_to_dec(cores);
        let r = self.arg("-cpu").arg("host").arg("-smp").arg_owned(value);
        proof {
            assert(r@ =~= self@ + seq!["-cpu"@, "host"@, "-smp"@, spec_dec(cores as nat)]);
        }
        r
    }

    /// The control socket: a unix socket in server mode that does not
    /// block waiting for a client.
    pub fn qmp(self, unix: &str) -> (r: Self)
        ensures
            r@ == self@ + seq!["-qmp"@, "unix:"@ + unix@ + ",server=on,wait=off"@],
    {
        let mut value: String = "unix:".to_owned();
        push_str_copy(&mut value, unix);
        push_str_copy(&mut value, ",server=on,wait=off");
        let r = self.arg("-qmp").arg_owned(value);
        proof {
            assert(r@ =~= self@ + seq!["-qmp"@, "unix:"@ + unix@ + ",server=on,wait=off"@]);
        }
        r
    }

    /// The file the daemonized process writes its process id to.
    pub fn pidfile(self, path: &str) -> (r: Self)
        ensures
            r@ == self@ + seq!["-pidfile"@, path@],
    {
        let r = self.arg("-pidfile").arg(path);
        proof {
            assert(r@ =~= self@ + seq!["-pidfile"@, path@]);
        }
        r
    }

    /// The remote-display flag, with password authentication when asked.
    pub fn vnc(self, display: &str, password: bool) -> (r: Self)
        ensures
            r@ == self@ + seq![
                "-vnc"@,
                display@ + (if password { ",password=on"@ } else { Seq::<char>::empty() }),
            ],
    {
        let mut value: String = display.to_owned();
        if password {
            push_str_copy(&mut value, ",password=on");
        }
        let r = self.arg("-vnc").arg_owned(value);
        proof {
            assert(r@ =~= self@ + seq![
                "-vnc"@,
                display@ + (if password { ",password=on"@ } else { Seq::<char>::empty() }),
            ]);
        }
        r
    }

    /// The display adapter device.
    pub fn virtio_vga(self) -> (r: Self)
        ensures
            r@ == self@ + seq!["-device"@, "virtio-vga"@],
    {
        let r = self.arg("-device").arg("virtio-vga");
        proof {
            assert(r@ =~= self@ + seq!["-device"@, "virtio-vga"@]);
        }
        r
    }

    /// A backing file attached under the given identifier, with no
    /// default bus attachment.
    pub fn drive(self, id: &str, filename: &str) -> (r: Self)
        ensures
            r@ == self@ + seq!["-drive"@, "file="@ + filename@ + ",if=none,id="@ + id@],
    {
        let mut value: String = "file=".to_owned();
        push_str_copy(&mut value, filename);
        push_str_copy(&mut value, ",if=none,id=");
        push_str_copy(&mut value, id);
        let r = self.arg("-drive").arg_owned(value);
        proof {
            assert(r@ =~= self@ + seq![
                "-drive"@,
                "file="@ + filename@ + ",if=none,id="@ + id@,
            ]);
        }
        r
    }

    /// The firmware pair: a read-only code image and a writable
    /// variable-store image.
    pub fn ovmf(self, code: &str, vars: &str) -> (r: Self)
        ensures
            r@ == self@ + seq![
                "-drive"@,
                "if=pflash,format=raw,readonly=on,file="@ + code@,
                "-drive"@,
                "if=pflash,format=raw,file="@ + vars@,
            ],
    {
        let mut cvalue: String = "if=pflash,format=raw,readonly=on,file=".to_owned();
        push_str_copy(&mut cvalue, code);
        let mut vvalue: String = "if=pflash,format=raw,file=".to_owned();
        push_str_copy(&mut vvalue, vars);
        let r = self.arg("-drive").arg_owned(cvalue).arg("-drive").arg_owned(vvalue);
        proof {
            assert(r@ =~= self@ + seq![
                "-drive"@,
                "if=pflash,format=raw,readonly=on,file="@ + code@,
                "-drive"@,
                "if=pflash,format=raw,file="@ + vars@,
            ]);
        }
        r
    }

    /// A legacy-bus device bound to the drive with this identifier.
    pub fn ide_device(self, drive_id: &str, boot_index: Option<u32>, media_type: &DiskMediaKind)
        -> (r: Self)
        ensures
            r@ == self@ + seq!["-device"@, spec_ide_device(drive_id@, boot_index, *media_type)],
    {
        let mut value: String = match media_type {
            DiskMediaKind::Disk => "ide-hd".to_owned(),
            DiskMediaKind::Cdrom => "ide-cd".to_owned(),
        };
        push_str_copy(&mut value, ",drive=");
        push_str_copy(&mut value, drive_id);
        push_bootindex(&mut value, boot_index);
        let r = self.arg("-device").arg_owned(value);
        proof {
            assert(r@ =~= self@ + seq![
                "-device"@,
                spec_ide_device(drive_id@, boot_index, *media_type),
            ]);
        }
        r
    }

    /// A paravirtualized block device bound to the drive with this
    /// identifier.
    pub fn virtio_blk(self, drive_id: &str, boot_index: Option<u32>) -> (r: Self)
        ensures
            r@ == self@ + seq!["-device"@, spec_virtio_blk_device(drive_id@, boot_index)],
    {
        let mut value: String = "virtio-blk-pci,drive=".to_owned();
        push_str_copy(&mut value, drive_id);
        push_bootindex(&mut value, boot_index);
        let r = self.arg("-device").arg_owned(value);
        proof {
            assert(r@ =~= self@ + seq![
                "-device"@,
                spec_virtio_blk_device(drive_id@, boot_index),
            ]);
        }
        r
    }

    /// A tap-backed network backend carrying the host interface name and
    /// the optional up and down scripts.
    pub fn netdev_tap(
        self,
        id: &str,
        script: Option<&str>,
        downscript: Option<&str>,
        ifname: &str,
    ) -> (r: Self)
        ensures
            r@ == self@ + seq![
                "-netdev"@,
                spec_netdev_tap(
                    id@,
                    match script {
                        Some(s) => Some(s@),
                        None => None,
                    },
                    match downscript {
                        Some(s) => Some(s@),
                        None => None,
                    },
                    ifname@,
                ),
            ],
    {
        let mut value: String = "tap,ifname=".to_owned();
        push_str_copy(&mut value, ifname);
        push_str_copy(&mut value, ",id=");
        push_str_copy(&mut value, id);
        push_str_copy(&mut value, ",script=");
        match script {
            Some(s) => push_str_copy(&mut value, s),
            None => push_str_copy(&mut value, "no"),
        };
        push_str_copy(&mut value, ",downscript=");
        match downscript {
            Some(s) => push_str_copy(&mut value, s),
            None => push_str_copy(&mut value, "no"),
        };
        let r = self.arg("-netdev").arg_owned(value);
        proof {
            assert(r@ =~= self@ + seq![
                "-netdev"@,
                spec_netdev_tap(
                    id@,
                    match script {
                        Some(s) => Some(s@),
                        None => None,
                    },
                    match downscript {
                        Some(s) => Some(s@),
                        None => None,
                    },
                    ifname@,
                ),
            ]);
        }
        r
    }

    /// A network device bound to its backend by identifier, with the
    /// interface's MAC address.
    pub fn network_device(self, netdev_id: &str, mac: &str) -> (r: Self)
        ensures
            r@ == self@ + seq!["-device"@, spec_network_device(netdev_id@, mac@)],
    {
        let mut value: String = "e1000,netdev=".to_owned();
        push_str_copy(&mut value, netdev_id);
        push_str_copy(&mut value, ",mac=");
        push_str_copy(&mut value, mac);
        let r = self.arg("-device").arg_owned(value);
        proof {
            assert(r@ =~= self@ + seq!["-device"@, spec_network_device(netdev_id@, mac@)]);
        }
        r
    }
}

/// A comma-joined argument value under construction.
#[derive(Debug)]
pub struct ArgValue {
    parts: Vec<String>,
}

/// The comma-joined text of the given parts.
pub open spec fn spec_join_comma(parts: Seq<Seq<char>>) -> Seq<char>
    decreases parts.len(),
{
    if parts.len() == 0 {
        Seq::empty()
    } else if parts.len() == 1 {
        parts[0]
    } else {
        spec_join_comma(parts.drop_last()) + ","@ + parts.last()
    }
}

impl View for ArgValue {
    type V = Seq<Seq<char>>;

    closed spec fn view(&self) -> Seq<Seq<char>> {
        self.parts.deep_view()
    }
}

impl ArgValue {
    /// An empty value.
    pub fn new() -> (r: Self)
        ensures
            r@ == Seq::<Seq<char>>::empty(),
    {
        let r = ArgValue { parts: Vec::new() };
        proof {
            assert(r@ =~= Seq::<Seq<char>>::empty());
        }
        r
    }

    /// Appends one verbatim part.
    pub fn arg(self, value: &str) -> (r: Self)
        ensures
            r@ == self@.push(value@),
    {
        let mut s = self;
        s.parts.push(value.to_owned());
        proof {
            assert(s@ =~= self@.push(value@));
        }
        s
    }

    /// Appends one `key=value` part.
    pub fn key_value(self, key: &str, value: &str) -> (r: Self)
        ensures
            r@ == self@.push(key@ + "="@ + value@),
    {
        let mut s = self;
        let mut part: String = key.to_owned();
        push_str_copy(&mut part, "=");
        push_str_copy(&mut part, value);
        s.parts.push(part);
        proof {
            assert(s@ =~= self@.push(key@ + "="@ + value@));
        }
        s
    }

    /// Appends one `key=N` part when the number is present, and nothing
    /// otherwise.
    pub fn key_value_opt(self, key: &str, value: Option<u32>) -> (r: Self)
        ensures
            r@ == match value {
                Some(n) => self@.push(key@ + "="@ + spec_dec(n as nat)),
                None => self@,
            },
    {
        match value {
            Some(n) => {
                let mut s = self;
                let mut part: String = key.to_owned();
                push_str_copy(&mut part, "=");
                push_dec(&mut part, n as u64);
                s.parts.push(part);
                proof {
                    assert(s@ =~= self@.push(key@ + "="@ + spec_dec(n as nat)));
                }
                s
            },
            None => self,
        }
    }

    /// The parts joined with commas.
    pub fn build(self) -> (r: String)
        ensures
            r@ == spec_join_comma(self@),
    {
        let mut out = String::new();
        let mut i: usize = 0;
        while i < self.parts.len()
            invariant
                i <= self.parts.len(),
                out@ == spec_join_comma(self@.take(i as int)),
                self@ == self.parts.deep_view(),
            decreases self.parts.len() - i,
        {
            if i > 0 {
                push_str_copy(&mut out, ",");
            }
            push_str_copy(&mut out, self.parts[i].as_str());
            i = i + 1;
            proof {
                assert(self@.take(i as int).drop_last() =~= self@.take(i - 1));
                assert(self@.take(i as int).last() == self@[i - 1]);
                assert(out@ =~= spec_join_comma(self@.take(i as int)));
            }
        }
        proof {
            assert(self@.take(self@.len() as int) =~= self@);
        }
        out
    }
}

/// The format of a disk image.
#[derive(Debug, Clone, Copy)]
pub enum ImgFormat {
    Qcow2,
    Raw,
}

/// The text of a disk-image format.
pub open spec fn spec_img_format(f: ImgFormat) -> Seq<char> {
    match f {
        ImgFormat::Qcow2 => "qcow2"@,
        ImgFormat::Raw => "raw"@,
    }
}

/// An argument vector under construction for the disk-image tool.
#[derive(Debug)]
pub struct Img {
    args: Vec<String>,
}

impl View for Img {
    type V = Seq<Seq<char>>;

    closed spec fn view(&self) -> Seq<Seq<char>> {
        self.args.deep_view()
    }
}

impl Img {
    /// A vector holding only the tool binary itself.
    pub fn new(binary: &str) -> (r: Self)
        ensures
            r@ == seq![binary@],
    {
        let mut args: Vec<String> = Vec::new();
        args.push(binary.to_owned());
        let r = Img { args };
        proof {
            assert(r@ =~= seq![binary@]);
        }
        r
    }

    /// Appends one verbatim argument.
    pub fn arg(self, arg: &str) -> (r: Self)
        ensures
            r@ == self@.push(arg@),
    {
        let mut s = self;
        s.args.push(arg.to_owned());
        proof {
            assert(s@ =~= self@.push(arg@));
        }
        s
    }

    fn arg_owned(self, arg: String) -> (r: Self)
        ensures
            r@ == self@.push(arg@),
    {
        let mut s = self;
        let ghost a = arg@;
        s.args.push(arg);
        proof {
            assert(s@ =~= self@.push(a));
        }
        s
    }

    /// The finished argument vector.
    pub fn build(self) -> (r: Vec<String>)
        ensures
            r.deep_view() == self@,
    {
        self.args
    }

    /// The subcommand creating a fresh image of the given format and
    /// size in megabytes.
    pub fn create(self, format: ImgFormat, path: &str, size: u64) -> (r: Self)
        ensures
            r@ == self@ + seq![
                "create"@,
                "-f"@,
                spec_img_format(format),
                path@,
                spec_dec(size as nat) + "M"@,
            ],
    {
        let fmt = match format {
            ImgFormat::Qcow2 => "qcow2",
            ImgFormat::Raw => "raw",
        };
        let mut sz = String::new();
        push_dec(&mut sz, size);
        push_str_copy(&mut sz, "M");
        let r = self.arg("create").arg("-f").arg(fmt).arg(path).arg_owned(sz);
        proof {
            assert(r@ =~= self@ + seq![
                "create"@,
                "-f"@,
                spec_img_format(format),
                path@,
                spec_dec(size as nat) + "M"@,
            ]);
        }
        r
    }

    /// The subcommand converting an image into the given format.
    pub fn convert(self, format: ImgFormat, src: &str, dest: &str) -> (r: Self)
        ensures
            r@ == self@ + seq!["convert"@, "-O"@, spec_img_format(format), src@, dest@],
    {
        let fmt = match format {
            ImgFormat::Qcow2 => "qcow2",
            ImgFormat::Raw => "raw",
        };
        let r = self.arg("convert").arg("-O").arg(fmt).arg(src).arg(dest);
        proof {
            assert(r@ =~= self@ + seq!["convert"@, "-O"@, spec_img_format(format), src@, dest@]);
        }
        r
    }

    /// The subcommand growing an image to the given size in megabytes.
    pub fn resize(self, path: &str, size: u64) -> (r: Self)
        ensures
            r@ == self@ + seq!["resize"@, path@, spec_dec(size as nat) + "M"@],
    {
        let mut sz = String::new();
        push_dec(&mut sz, size);
        push_str_copy(&mut sz, "M");
        let r = self.arg("resize").arg(path).arg_owned(sz);
        proof {
            assert(r@ =~= self@ + seq!["resize"@, path@, spec_dec(size as nat) + "M"@]);
        }
        r
    }
}

} // verus!
