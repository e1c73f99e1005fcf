pub mod arch;
pub mod sysinfo;
