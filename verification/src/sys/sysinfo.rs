//! What the kernel tells about the host.
use vstd::prelude::*;
use crate::sys::arch::{Arch, parse_arch};

verus! {

/// The host system, as `uname` describes it.
#[derive(Debug)]
pub struct SysInfo {
    pub sysname: String,
    pub release: String,
    pub hostname: String,
    pub version: String,
    pub machine: Arch,
}

impl SysInfo {
    /// The description built from the fields of `uname`; the machine name is
    /// read as an architecture.
    pub fn from_uname(
        sysname: String,
        release: String,
        hostname: String,
        version: String,
        machine: &str,
    ) -> (r: SysInfo)
        ensures
            r.sysname == sysname,
            r.release == release,
            r.hostname == hostname,
            r.version == version,
            r.machine == parse_arch(machine@),
    {
        SysInfo { sysname, release, hostname, version, machine: Arch::from_str(machine) }
    }
}

} // verus!
