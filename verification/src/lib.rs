//! Orchestration core for virtual machines run under a local hypervisor:
//! a registry of machine descriptions with collision-free resource
//! allocation, a line-delimited JSON control-protocol session, and the
//! translation of a resolved machine description into the hypervisor's
//! argument vector.

use vstd::prelude::*;

pub mod config;
pub mod launch;
pub mod lifecycle;
pub mod mac;
pub mod nft;
pub mod qemu_args;
pub mod qmp_client;
pub mod qmp_types;
pub mod registry;
pub mod runner;
pub mod storage;
pub mod text;
pub mod tools;
pub mod vm_input;

verus! {

/// Errors surfaced by the orchestration core, one variant per failure
/// class so that callers can tell a missing record from a conflict.
#[derive(Debug, Clone, Copy, PartialEq, Eq, Structural)]
pub enum Error {
    /// A socket, file or process failure, surfaced to the caller.
    Io,
    /// A malformed or out-of-order control-protocol message.
    Protocol,
    /// The control-protocol session ended before the greeting arrived.
    HandshakeMissing,
    /// The control-protocol channel is no longer usable.
    ChannelClosed,
    /// No virtual machine with the requested identifier exists.
    VMNotFound,
    /// No network interface with the requested name exists.
    InterfaceNotFound,
    /// A value lies outside its documented range.
    InvalidArgument,
    /// The virtual machine is not running, but the operation needs it to be.
    VMNotRunning,
    /// The virtual machine is already running.
    VMRunning,
    /// An identifier that must be unique is already taken.
    Conflict,
    /// Every display number or interface name in the scan bound is taken.
    NoFreeResource,
}

/// The fixed description of each failure class.
pub open spec fn spec_error_message(e: Error) -> Seq<char> {
    match e {
        Error::Io => "input or output failed"@,
        Error::Protocol => "control protocol violated"@,
        Error::HandshakeMissing => "socket closed before the greeting"@,
        Error::ChannelClosed => "control channel closed"@,
        Error::VMNotFound => "virtual machine not found"@,
        Error::InterfaceNotFound => "network interface not found"@,
        Error::InvalidArgument => "value out of range"@,
        Error::VMNotRunning => "virtual machine is not running"@,
        Error::VMRunning => "virtual machine is already running"@,
        Error::Conflict => "identifier already taken"@,
        Error::NoFreeResource => "no free display or interface name"@,
    }
}

impl Error {
    /// The description of this failure class.
    pub fn message(&self) -> (r: String)
        ensures
            r@ == spec_error_message(*self),
    {
        match self {
            Error::Io => "input or output failed".to_owned(),
            Error::Protocol => "control protocol violated".to_owned(),
            Error::HandshakeMissing => "socket closed before the greeting".to_owned(),
            Error::ChannelClosed => "control channel closed".to_owned(),
            Error::VMNotFound => "virtual machine not found".to_owned(),
            Error::InterfaceNotFound => "network interface not found".to_owned(),
            Error::InvalidArgument => "value out of range".to_owned(),
            Error::VMNotRunning => "virtual machine is not running".to_owned(),
            Error::VMRunning => "virtual machine is already running".to_owned(),
            Error::Conflict => "identifier already taken".to_owned(),
            Error::NoFreeResource => "no free display or interface name".to_owned(),
        }
    }
}

} // verus!
