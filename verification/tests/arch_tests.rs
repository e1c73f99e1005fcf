use kapsule::sys::arch::{Arch, Variant};
use kapsule::sys::sysinfo::SysInfo;

#[test]
fn variant_names_read_back() {
    let all = [
        Variant::V5,
        Variant::V6,
        Variant::V7,
        Variant::V8,
        Variant::I386,
        Variant::I586,
        Variant::I686,
    ];
    for v in all {
        assert_eq!(Variant::from_str(v.to_string()), Some(v));
    }
    assert_eq!(Variant::V7.to_string(), "v7");
    assert_eq!(Variant::I686.to_string(), "686");
}

#[test]
fn unknown_variant_names() {
    assert_eq!(Variant::from_str("v9"), None);
    assert_eq!(Variant::from_str(""), None);
    assert_eq!(Variant::from_str("V5"), None);
    assert_eq!(Variant::from_str("i386"), None);
}

#[test]
fn machine_names() {
    assert_eq!(Arch::from_str("aarch64"), Arch::ARM64(Variant::V8));
    assert_eq!(Arch::from_str("arm64"), Arch::ARM64(Variant::V8));
    assert_eq!(Arch::from_str("armv5l"), Arch::ARM32(Variant::V5));
    assert_eq!(Arch::from_str("armv6l"), Arch::ARM32(Variant::V6));
    assert_eq!(Arch::from_str("armv7l"), Arch::ARM32(Variant::V7));
    assert_eq!(Arch::from_str("i386"), Arch::AMD32(Variant::I386));
    assert_eq!(Arch::from_str("i586"), Arch::AMD32(Variant::I586));
    assert_eq!(Arch::from_str("i686"), Arch::AMD32(Variant::I686));
    assert_eq!(Arch::from_str("x86_64"), Arch::AMD64);
    assert_eq!(Arch::from_str("amd64"), Arch::AMD64);
    assert_eq!(Arch::from_str("riscv64"), Arch::UNKNOWN);
    assert_eq!(Arch::from_str("arm"), Arch::UNKNOWN);
}

#[test]
fn registry_names() {
    assert_eq!(Arch::ARM64(Variant::V8).to_string(), Some("arm64"));
    assert_eq!(Arch::ARM32(Variant::V7).to_string(), Some("arm"));
    assert_eq!(Arch::AMD64.to_string(), Some("amd64"));
    assert_eq!(Arch::AMD32(Variant::I386).to_string(), Some("386"));
    assert_eq!(Arch::AMD32(Variant::I586).to_string(), Some("586"));
    assert_eq!(Arch::AMD32(Variant::I686).to_string(), Some("686"));
    assert_eq!(Arch::AMD32(Variant::V5).to_string(), None);
    assert_eq!(Arch::UNKNOWN.to_string(), None);
}

#[test]
fn variants_of_architectures() {
    assert_eq!(Arch::ARM64(Variant::V8).get_variant(), Some(Variant::V8));
    assert_eq!(Arch::ARM32(Variant::V6).get_variant(), Some(Variant::V6));
    assert_eq!(Arch::AMD32(Variant::I586).get_variant(), Some(Variant::I586));
    assert_eq!(Arch::AMD64.get_variant(), None);
    assert_eq!(Arch::UNKNOWN.get_variant(), None);
}

#[test]
fn uname_fields() {
    let info = SysInfo::from_uname(
        "Linux".to_string(),
        "6.1.0".to_string(),
        "box".to_string(),
        "#1 SMP".to_string(),
        "aarch64",
    );
    assert_eq!(info.sysname, "Linux");
    assert_eq!(info.release, "6.1.0");
    assert_eq!(info.hostname, "box");
    assert_eq!(info.version, "#1 SMP");
    assert_eq!(info.machine, Arch::ARM64(Variant::V8));
}
