//! The storage layout of virtual machines on disk: where a machine's
//! directory and each drive image live, and the exact tool invocations
//! that create, copy and resize images. The invocations are returned as
//! argument vectors; running them is the surrounding program's job.

use vstd::prelude::*;
use crate::qemu_args::{Img, ImgFormat, spec_img_format};
use crate::text::{spec_dec, push_str_copy};

verus! {

/// The directory of one virtual machine under the storage base.
pub open spec fn spec_vm_dir(base: Seq<char>, vm_id: Seq<char>) -> Seq<char> {
    base + "/"@ + vm_id + ".vm"@
}

/// The image file of one drive inside its machine's directory.
pub open spec fn spec_drive_image_path(
    base: Seq<char>,
    vm_id: Seq<char>,
    drive_id: Seq<char>,
) -> Seq<char> {
    spec_vm_dir(base, vm_id) + "/"@ + drive_id + ".img"@
}

/// A named template image directly under the storage base.
pub open spec fn spec_image_path(base: Seq<char>, image: Seq<char>) -> Seq<char> {
    base + "/"@ + image + ".img"@
}

/// How one drive is installed: freshly created at a size, or copied from
/// a template image and optionally grown.
#[derive(Debug)]
pub enum DriveInstallMode {
    New { id: String, size: u64 },
    Existing { id: String, resize: u64, image: String },
}

/// The mathematical value of a [`DriveInstallMode`].
pub enum DriveInstallModeView {
    New { id: Seq<char>, size: u64 },
    Existing { id: Seq<char>, resize: u64, image: Seq<char> },
}

impl View for DriveInstallMode {
    type V = DriveInstallModeView;

    open spec fn view(&self) -> DriveInstallModeView {
        match self {
            DriveInstallMode::New { id, size } => DriveInstallModeView::New {
                id: id@,
                size: *size,
            },
            DriveInstallMode::Existing { id, resize, image } => DriveInstallModeView::Existing {
                id: id@,
                resize: *resize,
                image: image@,
            },
        }
    }
}

impl DeepView for DriveInstallMode {
    type V = DriveInstallModeView;

    open spec fn deep_view(&self) -> DriveInstallModeView {
        self.view()
    }
}

/// Everything the storage collaborator must do to install a machine.
#[derive(Debug)]
pub struct InstallOptions {
    pub drives: Vec<DriveInstallMode>,
}

/// One step of an installation: a directory to create, a process to run,
/// or a file to copy.
#[derive(Debug)]
pub enum StorageAction {
    EnsureDir { path: String },
    Run { args: Vec<String> },
    Copy { src: String, dest: String },
}

/// The mathematical value of a [`StorageAction`].
pub enum StorageActionView {
    EnsureDir { path: Seq<char> },
    Run { args: Seq<Seq<char>> },
    Copy { src: Seq<char>, dest: Seq<char> },
}

impl View for StorageAction {
    type V = StorageActionView;

    open spec fn view(&self) -> StorageActionView {
        match self {
            StorageAction::EnsureDir { path } => StorageActionView::EnsureDir { path: path@ },
            StorageAction::Run { args } => StorageActionView::Run { args: args.deep_view() },
            StorageAction::Copy { src, dest } => StorageActionView::Copy {
                src: src@,
                dest: dest@,
            },
        }
    }
}

impl DeepView for StorageAction {
    type V = StorageActionView;

    open spec fn deep_view(&self) -> StorageActionView {
        self.view()
    }
}

/// The storage collaborator's pure core: path resolution and tool
/// invocations over a base directory and the disk-image tool binary.
#[derive(Debug)]
pub struct VmStorage {
    base: String,
    qemu_img: String,
}

/// The mathematical value of a [`VmStorage`].
#[verifier::ext_equal]
pub struct VmStorageView {
    pub base: Seq<char>,
    pub qemu_img: Seq<char>,
}

impl View for VmStorage {
    type V = VmStorageView;

    closed spec fn view(&self) -> VmStorageView {
        VmStorageView { base: self.base@, qemu_img: self.qemu_img@ }
    }
}

/// The invocation that creates a raw image of `size` megabytes.
pub open spec fn spec_create_image_args(tool: Seq<char>, path: Seq<char>, size: u64)
    -> Seq<Seq<char>> {
    seq![tool, "create"@, "-f"@, "raw"@, path, spec_dec(size as nat) + "M"@]
}

/// The invocation that grows an image to `size` megabytes.
pub open spec fn spec_resize_image_args(tool: Seq<char>, path: Seq<char>, size: u64)
    -> Seq<Seq<char>> {
    seq![tool, "resize"@, path, spec_dec(size as nat) + "M"@]
}

/// The steps installing one drive of a machine.
pub open spec fn spec_drive_install_actions(
    st: VmStorageView,
    vm_id: Seq<char>,
    d: DriveInstallModeView,
) -> Seq<StorageActionView> {
    match d {
        DriveInstallModeView::New { id, size } => seq![
            StorageActionView::Run {
                args: spec_create_image_args(
                    st.qemu_img,
                    spec_drive_image_path(st.base, vm_id, id),
                    size,
                ),
            },
        ],
        DriveInstallModeView::Existing { id, resize, image } => {
            let copy = StorageActionView::Copy {
                src: spec_image_path(st.base, image),
                dest: spec_drive_image_path(st.base, vm_id, id),
            };
            if resize > 0 {
                seq![
                    copy,
                    StorageActionView::Run {
                        args: spec_resize_image_args(
                            st.qemu_img,
                            spec_drive_image_path(st.base, vm_id, id),
                            resize,
                        ),
                    },
                ]
            } else {
                seq![copy]
            }
        },
    }
}

/// The steps installing all drives, in request order.
pub open spec fn spec_drives_install_actions(
    st: VmStorageView,
    vm_id: Seq<char>,
    ds: Seq<DriveInstallModeView>,
) -> Seq<StorageActionView>
    decreases ds.len(),
{
    if ds.len() == 0 {
        Seq::empty()
    } else {
        spec_drive_install_actions(st, vm_id, ds[0]) + spec_drives_install_actions(
            st,
            vm_id,
            ds.drop_first(),
        )
    }
}

/// The whole plan: the machine directory first, then each drive.
pub open spec fn spec_install_plan(
    st: VmStorageView,
    vm_id: Seq<char>,
    ds: Seq<DriveInstallModeView>,
) -> Seq<StorageActionView> {
    seq![StorageActionView::EnsureDir { path: spec_vm_dir(st.base, vm_id) }]
        + spec_drives_install_actions(st, vm_id, ds)
}

proof fn lemma_drives_install_push(
    st: VmStorageView,
    vm_id: Seq<char>,
    ds: Seq<DriveInstallModeView>,
    d: DriveInstallModeView,
)
    ensures
        spec_drives_install_actions(st, vm_id, ds.push(d)) == spec_drives_install_actions(
            st,
            vm_id,
            ds,
        ) + spec_drive_install_actions(st, vm_id, d),
    decreases ds.len(),
{
    if ds.len() == 0 {
        assert(ds.push(d).drop_first() =~= ds);
        assert(ds.push(d)[0] == d);
        assert(spec_drives_install_actions(st, vm_id, ds.push(d)) =~= spec_drives_install_actions(
            st,
            vm_id,
            ds,
        ) + spec_drive_install_actions(st, vm_id, d));
    } else {
        assert(ds.push(d).drop_first() =~= ds.drop_first().push(d));
        assert(ds.push(d)[0] == ds[0]);
        lemma_drives_install_push(st, vm_id, ds.drop_first(), d);
        assert(spec_drives_install_actions(st, vm_id, ds.push(d)) =~= spec_drives_install_actions(
            st,
            vm_id,
            ds,
        ) + spec_drive_install_actions(st, vm_id, d));
    }
}

impl VmStorage {
    /// A storage layout rooted at `base`, with the disk-image tool at
    /// `qemu_img`.
    pub fn new(base: &str, qemu_img: &str) -> (r: Self)
        ensures
            r@.base == base@,
            r@.qemu_img == qemu_img@,
    {
        VmStorage { base: base.to_owned(), qemu_img: qemu_img.to_owned() }
    }

    /// The directory of one machine under the storage base.
    pub fn path_for_vm(&self, vm_id: &str) -> (r: String)
        ensures
            r@ == spec_vm_dir(self@.base, vm_id@),
    {
        let mut s = self.base.clone();
        push_str_copy(&mut s, "/");
        push_str_copy(&mut s, vm_id);
        push_str_copy(&mut s, ".vm");
        proof {
            assert(s@ =~= spec_vm_dir(self@.base, vm_id@));
        }
        s
    }

    /// The image file of one drive of one machine.
    pub fn drive_image_path(&self, vm_id: &str, drive_id: &str) -> (r: String)
        ensures
            r@ == spec_drive_image_path(self@.base, vm_id@, drive_id@),
    {
        let mut s = self.path_for_vm(vm_id);
        push_str_copy(&mut s, "/");
        push_str_copy(&mut s, drive_id);
        push_str_copy(&mut s, ".img");
        proof {
            assert(s@ =~= spec_drive_image_path(self@.base, vm_id@, drive_id@));
        }
        s
    }

    fn get_image_path(&self, image: &str) -> (r: String)
        ensures
            r@ == spec_image_path(self@.base, image@),
    {
        let mut s = self.base.clone();
        push_str_copy(&mut s, "/");
        push_str_copy(&mut s, image);
        push_str_copy(&mut s, ".img");
        proof {
            assert(s@ =~= spec_image_path(self@.base, image@));
        }
        s
    }

    fn create_drive_image_args(&self, path: &str, size: u64) -> (r: Vec<String>)
        ensures
            r.deep_view() == spec_create_image_args(self@.qemu_img, path@, size),
    {
        let args = Img::new(self.qemu_img.as_str()).create(ImgFormat::Raw, path, size).build();
        proof {
            reveal_strlit("raw");
            assert(spec_img_format(ImgFormat::Raw) == "raw"@);
            assert(args.deep_view() =~= spec_create_image_args(self@.qemu_img, path@, size));
        }
        args
    }

    fn resize_drive_image_args(&self, path: &str, size: u64) -> (r: Vec<String>)
        ensures
            r.deep_view() == spec_resize_image_args(self@.qemu_img, path@, size),
    {
        let args = Img::new(self.qemu_img.as_str()).resize(path, size).build();
        proof {
            assert(args.deep_view() =~= spec_resize_image_args(self@.qemu_img, path@, size));
        }
        args
    }

    /// Every step that installs the machine's drives: its directory
    /// first, then per drive either a fresh image at the requested size,
    /// or a copy of a template image grown when a resize was requested.
    pub fn install_vm_plan(&self, vm_id: &str, options: &InstallOptions) -> (r: Vec<StorageAction>)
        ensures
            r.deep_view() == spec_install_plan(self@, vm_id@, options.drives.deep_view()),
    {
        let ghost ds = options.drives.deep_view();
        let mut out: Vec<StorageAction> = Vec::new();
        out.push(StorageAction::EnsureDir { path: self.path_for_vm(vm_id) });
        let mut i: usize = 0;
        proof {
            assert(out.deep_view() =~= seq![
                StorageActionView::EnsureDir { path: spec_vm_dir(self@.base, vm_id@) },
            ] + spec_drives_install_actions(self@, vm_id@, ds.take(0)));
        }
        while i < options.drives.len()
            invariant
                i <= options.drives.len(),
                ds == options.drives.deep_view(),
                ds.len() == options.drives.len(),
                out.deep_view() == seq![
                    StorageActionView::EnsureDir { path: spec_vm_dir(self@.base, vm_id@) },
                ] + spec_drives_install_actions(self@, vm_id@, ds.take(i as int)),
            decreases options.drives.len() - i,
        {
            let ghost predeep = out.deep_view();
            match &options.drives[i] {
                DriveInstallMode::New { id, size } => {
                    let path = self.drive_image_path(vm_id, id.as_str());
                    let args = self.create_drive_image_args(path.as_str(), *size);
                    out.push(StorageAction::Run { args });
                },
                DriveInstallMode::Existing { id, resize, image } => {
                    let dest = self.drive_image_path(vm_id, id.as_str());
                    let src = self.get_image_path(image.as_str());
                    let dest2 = dest.clone();
                    out.push(StorageAction::Copy { src, dest });
                    if *resize > 0 {
                        let args = self.resize_drive_image_args(dest2.as_str(), *resize);
                        out.push(StorageAction::Run { args });
                    }
                },
            }
            i = i + 1;
            proof {
                assert(ds.take(i as int) =~= ds.take(i - 1).push(ds[i - 1]));
                lemma_drives_install_push(self@, vm_id@, ds.take(i - 1), ds[i - 1]);
                assert(out.deep_view() =~= predeep + spec_drive_install_actions(
                    self@,
                    vm_id@,
                    ds[i - 1],
                ));
                assert(out.deep_view() =~= seq![
                    StorageActionView::EnsureDir { path: spec_vm_dir(self@.base, vm_id@) },
                ] + spec_drives_install_actions(self@, vm_id@, ds.take(i as int)));
            }
        }
        proof {
            assert(ds.take(ds.len() as int) =~= ds);
        }
        out
    }
}

} // verus!
