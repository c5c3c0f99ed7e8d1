//! Invocation builders for the external image tools: the disk-image
//! tool, and the ISO generator used for first-boot payload media. Only
//! the argument vectors are built here; running them is the surrounding
//! program's job.

use vstd::prelude::*;
use crate::qemu_args::{Img, ImgFormat, spec_img_format};
use crate::text::spec_dec;
use vstd::string::StrSliceExecFns;

verus! {

/// Whether a path is absolute.
pub open spec fn spec_is_absolute(p: Seq<char>) -> bool {
    p.len() > 0 && p[0] == '/'
}

/// Whether a path is absolute.
pub fn is_absolute_path(p: &str) -> (r: bool)
    ensures
        r == spec_is_absolute(p@),
{
    if p.unicode_len() == 0 {
        return false;
    }
    p.get_char(0) == '/'
}

/// The disk-image tool, invoked by absolute path only.
#[derive(Debug)]
pub struct QemuImg {
    img_tool: String,
}

impl View for QemuImg {
    type V = Seq<char>;

    closed spec fn view(&self) -> Seq<char> {
        self.img_tool@
    }
}

impl QemuImg {
    /// The tool at the given absolute path.
    pub fn new(p: &str) -> (r: Self)
        requires
            spec_is_absolute(p@),
        ensures
            r@ == p@,
    {
        QemuImg { img_tool: p.to_owned() }
    }

    /// The invocation creating a raw image of `size` megabytes.
    pub fn create_command(&self, size: u32, path: &str) -> (r: Vec<String>)
        requires
            spec_is_absolute(path@),
        ensures
            r.deep_view() == seq![
                self@,
                "create"@,
                "-f"@,
                spec_img_format(ImgFormat::Raw),
                path@,
                spec_dec(size as nat) + "M"@,
            ],
    {
        let args = Img::new(self.img_tool.as_str()).create(
            ImgFormat::Raw,
            path,
            size as u64,
        ).build();
        proof {
            assert(args.deep_view() =~= seq![
                self@,
                "create"@,
                "-f"@,
                spec_img_format(ImgFormat::Raw),
                path@,
                spec_dec(size as nat) + "M"@,
            ]);
        }
        args
    }

    /// The invocation converting an image to raw format.
    pub fn convert_command(&self, path: &str, dest: &str) -> (r: Vec<String>)
        requires
            spec_is_absolute(path@),
        ensures
            r.deep_view() == seq![
                self@,
                "convert"@,
                "-O"@,
                spec_img_format(ImgFormat::Raw),
                path@,
                dest@,
            ],
    {
        let args = Img::new(self.img_tool.as_str()).convert(ImgFormat::Raw, path, dest).build();
        proof {
            assert(args.deep_view() =~= seq![
                self@,
                "convert"@,
                "-O"@,
                spec_img_format(ImgFormat::Raw),
                path@,
                dest@,
            ]);
        }
        args
    }

    /// The invocation growing an image to `size` megabytes.
    pub fn resize_command(&self, size: u32, path: &str) -> (r: Vec<String>)
        requires
            spec_is_absolute(path@),
        ensures
            r.deep_view() == seq![self@, "resize"@, path@, spec_dec(size as nat) + "M"@],
    {
        let args = Img::new(self.img_tool.as_str()).resize(path, size as u64).build();
        proof {
            assert(args.deep_view() =~= seq![
                self@,
                "resize"@,
                path@,
                spec_dec(size as nat) + "M"@,
            ]);
        }
        args
    }
}

/// The ISO generator, invoked by absolute path only.
#[derive(Debug)]
pub struct GenIsoImage {
    img_tool: String,
}

impl View for GenIsoImage {
    type V = Seq<char>;

    closed spec fn view(&self) -> Seq<char> {
        self.img_tool@
    }
}

impl GenIsoImage {
    /// The tool at the given absolute path.
    pub fn new(p: &str) -> (r: Self)
        requires
            spec_is_absolute(p@),
        ensures
            r@ == p@,
    {
        GenIsoImage { img_tool: p.to_owned() }
    }

    /// The invocation producing an attachable read-only medium from a
    /// source tree, with the given volume label.
    pub fn create_command(&self, src: &str, dest: &str, volume: &str) -> (r: Vec<String>)
        requires
            spec_is_absolute(src@),
            spec_is_absolute(dest@),
        ensures
            r.deep_view() == seq![
                self@,
                "-output"@,
                dest@,
                "-rational-rock"@,
                "-joliet"@,
                "-volid"@,
                volume@,
                src@,
            ],
    {
        let mut args: Vec<String> = Vec::new();
        args.push(self.img_tool.clone());
        args.push("-output".to_owned());
        args.push(dest.to_owned());
        args.push("-rational-rock".to_owned());
        args.push("-joliet".to_owned());
        args.push("-volid".to_owned());
        args.push(volume.to_owned());
        args.push(src.to_owned());
        proof {
            assert(args.deep_view() =~= seq![
                self@,
                "-output"@,
                dest@,
                "-rational-rock"@,
                "-joliet"@,
                "-volid"@,
                volume@,
                src@,
            ]);
        }
        args
    }
}

} // verus!
