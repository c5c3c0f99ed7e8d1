//! The runtime-wide configuration handed to the core at process start:
//! tool binaries, firmware image paths, and the API surface. It is built
//! once by the surrounding program and passed by reference; no component
//! reads ambient environment state.

use vstd::prelude::*;

verus! {

/// Paths of the firmware pair attached to UEFI machines.
#[derive(Debug)]
pub struct OVMF {
    pub code: String,
    pub vars: String,
}

/// The mathematical value of an [`OVMF`].
#[verifier::ext_equal]
pub struct OVMFView {
    pub code: Seq<char>,
    pub vars: Seq<char>,
}

impl View for OVMF {
    type V = OVMFView;

    open spec fn view(&self) -> OVMFView {
        OVMFView { code: self.code@, vars: self.vars@ }
    }
}

/// Paths of the external tool binaries the system invokes.
#[derive(Debug)]
pub struct CLI {
    pub bin: String,
    pub img: String,
    pub genisoimage: String,
}

/// The mathematical value of a [`CLI`].
#[verifier::ext_equal]
pub struct CLIView {
    pub bin: Seq<char>,
    pub img: Seq<char>,
    pub genisoimage: Seq<char>,
}

impl View for CLI {
    type V = CLIView;

    open spec fn view(&self) -> CLIView {
        CLIView { bin: self.bin@, img: self.img@, genisoimage: self.genisoimage@ }
    }
}

/// The listen address and permitted groups of the API surface.
#[derive(Debug)]
pub struct API {
    pub groups: Vec<String>,
    pub listen: String,
}

/// The mathematical value of an [`API`].
#[verifier::ext_equal]
pub struct APIView {
    pub groups: Seq<Seq<char>>,
    pub listen: Seq<char>,
}

impl View for API {
    type V = APIView;

    open spec fn view(&self) -> APIView {
        APIView { groups: self.groups.deep_view(), listen: self.listen@ }
    }
}

/// The whole runtime configuration.
#[derive(Debug)]
pub struct Config {
    pub cli: CLI,
    pub ovmf: OVMF,
    pub api: API,
}

/// The mathematical value of a [`Config`].
#[verifier::ext_equal]
pub struct ConfigView {
    pub cli: CLIView,
    pub ovmf: OVMFView,
    pub api: APIView,
}

impl View for Config {
    type V = ConfigView;

    open spec fn view(&self) -> ConfigView {
        ConfigView { cli: self.cli@, ovmf: self.ovmf@, api: self.api@ }
    }
}

} // verus!
