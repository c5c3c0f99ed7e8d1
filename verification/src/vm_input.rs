//! The builder callers use to describe a machine to create: a name, a
//! hardware shape with sensible defaults, the drives to install, and the
//! optional passwords for first boot and the remote display.

use vstd::prelude::*;

verus! {

/// How one requested drive is filled: empty at a size, copied from a
/// stored image, or copied from a preset and grown to a size.
#[derive(Debug)]
pub enum CreateDriveOptions {
    Empty { size: u32 },
    FromStorage { image: String },
    FromPreset { size: u32, preset: String },
}

/// The mathematical value of a [`CreateDriveOptions`].
pub enum CreateDriveOptionsView {
    Empty { size: u32 },
    FromStorage { image: Seq<char> },
    FromPreset { size: u32, preset: Seq<char> },
}

impl View for CreateDriveOptions {
    type V = CreateDriveOptionsView;

    open spec fn view(&self) -> CreateDriveOptionsView {
        match self {
            CreateDriveOptions::Empty { size } => CreateDriveOptionsView::Empty { size: *size },
            CreateDriveOptions::FromStorage { image } => CreateDriveOptionsView::FromStorage {
                image: image@,
            },
            CreateDriveOptions::FromPreset { size, preset } => CreateDriveOptionsView::FromPreset {
                size: *size,
                preset: preset@,
            },
        }
    }
}

impl DeepView for CreateDriveOptions {
    type V = CreateDriveOptionsView;

    open spec fn deep_view(&self) -> CreateDriveOptionsView {
        self.view()
    }
}

/// The secrets a new machine is provisioned with.
#[derive(Debug)]
pub struct Passwords {
    pub root: String,
    pub vnc: String,
}

/// The mathematical value of a [`Passwords`].
#[verifier::ext_equal]
pub struct PasswordsView {
    pub root: Seq<char>,
    pub vnc: Seq<char>,
}

impl View for Passwords {
    type V = PasswordsView;

    open spec fn view(&self) -> PasswordsView {
        PasswordsView { root: self.root@, vnc: self.vnc@ }
    }
}

/// A machine description under construction.
#[derive(Debug)]
pub struct CreateVirtualMachineInput {
    name: String,
    hostname: Option<String>,
    vcpu: u32,
    memory: u32,
    ovmf: bool,
    drives: Vec<CreateDriveOptions>,
    passwords: Option<Passwords>,
}

/// The mathematical value of a [`CreateVirtualMachineInput`].
#[verifier::ext_equal]
pub struct CreateVirtualMachineInputView {
    pub name: Seq<char>,
    pub hostname: Option<Seq<char>>,
    pub vcpu: u32,
    pub memory: u32,
    pub ovmf: bool,
    pub drives: Seq<CreateDriveOptionsView>,
    pub passwords: Option<PasswordsView>,
}

impl View for CreateVirtualMachineInput {
    type V = CreateVirtualMachineInputView;

    closed spec fn view(&self) -> CreateVirtualMachineInputView {
        CreateVirtualMachineInputView {
            name: self.name@,
            hostname: crate::launch::view_opt_string(self.hostname),
            vcpu: self.vcpu,
            memory: self.memory,
            ovmf: self.ovmf,
            drives: self.drives.deep_view(),
            passwords: match self.passwords {
                Some(p) => Some(p@),
                None => None,
            },
        }
    }
}

impl CreateVirtualMachineInput {
    /// A description with the default hardware shape: one processor,
    /// 1024 megabytes of memory, UEFI firmware attached, no drives.
    pub fn new(name: &str) -> (r: Self)
        ensures
            r@.name == name@,
            r@.hostname is None,
            r@.vcpu == 1,
            r@.memory == 1024,
            r@.ovmf == true,
            r@.drives == Seq::<CreateDriveOptionsView>::empty(),
            r@.passwords is None,
    {
        let r = CreateVirtualMachineInput {
            name: name.to_owned(),
            hostname: None,
            vcpu: 1,
            memory: 1024,
            ovmf: true,
            drives: Vec::new(),
            passwords: None,
        };
        proof {
            assert(r@.drives =~= Seq::<CreateDriveOptionsView>::empty());
        }
        r
    }

    /// Sets the guest hostname.
    pub fn hostname(self, hostname: &str) -> (r: Self)
        ensures
            r@ == (CreateVirtualMachineInputView { hostname: Some(hostname@), ..self@ }),
    {
        let mut s = self;
        s.hostname = Some(hostname.to_owned());
        proof {
            assert(s@ =~= CreateVirtualMachineInputView { hostname: Some(hostname@), ..self@ });
        }
        s
    }

    /// Sets the provisioning passwords.
    pub fn passwords(self, passwords: Passwords) -> (r: Self)
        ensures
            r@ == (CreateVirtualMachineInputView { passwords: Some(passwords@), ..self@ }),
    {
        let ghost p = passwords@;
        let mut s = self;
        s.passwords = Some(passwords);
        proof {
            assert(s@ =~= CreateVirtualMachineInputView { passwords: Some(p), ..self@ });
        }
        s
    }

    /// Appends one requested drive.
    pub fn drive(self, drive: CreateDriveOptions) -> (r: Self)
        ensures
            r@ == (CreateVirtualMachineInputView { drives: self@.drives.push(drive@), ..self@ }),
    {
        let ghost d = drive@;
        let mut s = self;
        s.drives.push(drive);
        proof {
            assert(s@.drives =~= self@.drives.push(d));
            assert(s@ =~= CreateVirtualMachineInputView { drives: self@.drives.push(d), ..self@ });
        }
        s
    }

    /// Sets the number of processors.
    pub fn vcpu(self, vcpu: u32) -> (r: Self)
        ensures
            r@ == (CreateVirtualMachineInputView { vcpu: vcpu, ..self@ }),
    {
        let mut s = self;
        s.vcpu = vcpu;
        proof {
            assert(s@ =~= CreateVirtualMachineInputView { vcpu: vcpu, ..self@ });
        }
        s
    }

    /// Sets the memory size in megabytes.
    pub fn memory(self, memory: u32) -> (r: Self)
        ensures
            r@ == (CreateVirtualMachineInputView { memory: memory, ..self@ }),
    {
        let mut s = self;
        s.memory = memory;
        proof {
            assert(s@ =~= CreateVirtualMachineInputView { memory: memory, ..self@ });
        }
        s
    }

    /// The described name.
    pub fn get_name(&self) -> (r: &String)
        ensures
            r@ == self@.name,
    {
        &self.name
    }
}

} // verus!
