//! Host architecture names and the variants that registries distinguish.
use vstd::prelude::*;
use crate::text::str_eq;

verus! {

/// The sub-architecture of a CPU family, as image registries name it.
#[derive(Debug, Clone, Copy, PartialEq, Eq, Structural)]
pub enum Variant {
    V5,
    V6,
    V7,
    V8,
    I386,
    I586,
    I686,
}

/// A CPU architecture, as reported by the kernel.
#[derive(Debug, Clone, Copy, PartialEq, Eq, Structural)]
pub enum Arch {
    ARM64(Variant),
    ARM32(Variant),
    AMD32(Variant),
    AMD64,
    UNKNOWN,
}

/// The registry name of a variant.
pub open spec fn variant_name(v: Variant) -> Seq<char> {
    match v {
        Variant::V5 => "v5"@,
        Variant::V6 => "v6"@,
        Variant::V7 => "v7"@,
        Variant::V8 => "v8"@,
        Variant::I386 => "386"@,
        Variant::I586 => "586"@,
        Variant::I686 => "686"@,
    }
}

/// The variant that a registry name denotes, if any.
pub open spec fn parse_variant(s: Seq<char>) -> Option<Variant> {
    if s == "v5"@ {
        Some(Variant::V5)
    } else if s == "v6"@ {
        Some(Variant::V6)
    } else if s == "v7"@ {
        Some(Variant::V7)
    } else if s == "v8"@ {
        Some(Variant::V8)
    } else if s == "386"@ {
        Some(Variant::I386)
    } else if s == "586"@ {
        Some(Variant::I586)
    } else if s == "686"@ {
        Some(Variant::I686)
    } else {
        None
    }
}

/// The architecture that a kernel machine name (`uname -m`) or a registry name denotes.
pub open spec fn parse_arch(s: Seq<char>) -> Arch {
    if s == "arm64"@ || s == "aarch64"@ {
        Arch::ARM64(Variant::V8)
    } else if s == "armv5l"@ {
        Arch::ARM32(Variant::V5)
    } else if s == "armv6l"@ {
        Arch::ARM32(Variant::V6)
    } else if s == "armv7l"@ {
        Arch::ARM32(Variant::V7)
    } else if s == "i386"@ {
        Arch::AMD32(Variant::I386)
    } else if s == "i586"@ {
        Arch::AMD32(Variant::I586)
    } else if s == "i686"@ {
        Arch::AMD32(Variant::I686)
    } else if s == "x86_64"@ || s == "amd64"@ {
        Arch::AMD64
    } else {
        Arch::UNKNOWN
    }
}

/// The registry name of an architecture; 32-bit x86 is named by its variant.
pub open spec fn arch_name(a: Arch) -> Option<Seq<char>> {
    match a {
        Arch::ARM64(_) => Some("arm64"@),
        Arch::ARM32(_) => Some("arm"@),
        Arch::AMD64 => Some("amd64"@),
        Arch::AMD32(v) => match v {
            Variant::I386 => Some("386"@),
            Variant::I586 => Some("586"@),
            Variant::I686 => Some("686"@),
            _ => None,
        },
        Arch::UNKNOWN => None,
    }
}

/// The variant carried by an architecture, if it has one.
pub open spec fn arch_variant(a: Arch) -> Option<Variant> {
    match a {
        Arch::ARM64(v) => Some(v),
        Arch::ARM32(v) => Some(v),
        Arch::AMD32(v) => Some(v),
        _ => None,
    }
}

impl Variant {
    pub fn from_str(s: &str) -> (r: Option<Self>)
        ensures
            r == parse_variant(s@),
    {
        if str_eq(s, "v5") {
            Some(Self::V5)
        } else if str_eq(s, "v6") {
            Some(Self::V6)
        } else if str_eq(s, "v7") {
            Some(Self::V7)
        } else if str_eq(s, "v8") {
            Some(Self::V8)
        } else if str_eq(s, "386") {
            Some(Self::I386)
        } else if str_eq(s, "586") {
            Some(Self::I586)
        } else if str_eq(s, "686") {
            Some(Self::I686)
        } else {
            None
        }
    }

    pub fn to_string(&self) -> (r: &'static str)
        ensures
            r@ == variant_name(*self),
    {
        match self {
            Variant::V5 => "v5",
            Variant::V6 => "v6",
            Variant::V7 => "v7",
            Variant::V8 => "v8",
            Variant::I386 => "386",
            Variant::I586 => "586",
            Variant::I686 => "686",
        }
    }
}

impl Arch {
    pub fn from_str(arch: &str) -> (r: Self)
        ensures
            r == parse_arch(arch@),
    {
        if str_eq(arch, "arm64") || str_eq(arch, "aarch64") {
            Self::ARM64(Variant::V8)
        } else if str_eq(arch, "armv5l") {
            Self::ARM32(Variant::V5)
        } else if str_eq(arch, "armv6l") {
            Self::ARM32(Variant::V6)
        } else if str_eq(arch, "armv7l") {
            Self::ARM32(Variant::V7)
        } else if str_eq(arch, "i386") {
            Self::AMD32(Variant::I386)
        } else if str_eq(arch, "i586") {
            Self::AMD32(Variant::I586)
        } else if str_eq(arch, "i686") {
            Self::AMD32(Variant::I686)
        } else if str_eq(arch, "x86_64") || str_eq(arch, "amd64") {
            Self::AMD64
        } else {
            Self::UNKNOWN
        }
    }

    pub fn to_string(&self) -> (r: Option<&'static str>)
        ensures
            match arch_name(*self) {
                Some(n) => (r matches Some(s) && s@ == n),
                None => r is None,
            },
    {
        match self {
            Arch::ARM64(_) => Some("arm64"),
            Arch::ARM32(_) => Some("arm"),
            Arch::AMD64 => Some("amd64"),
            Arch::AMD32(variant) => match variant {
                Variant::I386 => Some("386"),
                Variant::I586 => Some("586"),
                Variant::I686 => Some("686"),
                _ => None,
            },
            _ => None,
        }
    }

    pub fn get_variant(&self) -> (r: Option<Variant>)
        ensures
            r == arch_variant(*self),
    {
        match self {
            Arch::ARM64(v) => Some(*v),
            Arch::ARM32(v) => Some(*v),
            Arch::AMD32(v) => Some(*v),
            _ => None,
        }
    }
}

/// A variant's registry name reads back as that variant.
pub proof fn lemma_variant_name_round_trip(v: Variant)
    ensures
        parse_variant(variant_name(v)) == Some(v),
{
    reveal_strlit("v5");
    reveal_strlit("v6");
    reveal_strlit("v7");
    reveal_strlit("v8");
    reveal_strlit("386");
    reveal_strlit("586");
    reveal_strlit("686");
    assert("v5"@[1] == '5' && "v6"@[1] == '6' && "v7"@[1] == '7' && "v8"@[1] == '8');
    assert("386"@[0] == '3' && "586"@[0] == '5' && "686"@[0] == '6');
    assert("v5"@.len() == 2 && "386"@.len() == 3);
}

/// What a machine name is read as: 32-bit ARM names are `arm`, the variant
/// and `l`; 32-bit x86 names are `i` and the variant; 64-bit ARM is always of
/// variant `v8`. Every known architecture has a registry name, and 32-bit x86
/// is named by its variant.
pub proof fn lemma_machine_names(s: Seq<char>)
    ensures
        parse_arch(s) matches Arch::ARM32(v) ==> s == "arm"@ + variant_name(v) + "l"@,
        parse_arch(s) matches Arch::AMD32(v) ==> s == "i"@ + variant_name(v),
        parse_arch(s) matches Arch::ARM64(v) ==> v == Variant::V8 && (s == "arm64"@ || s
            == "aarch64"@),
        parse_arch(s) == Arch::AMD64 ==> (s == "x86_64"@ || s == "amd64"@),
        parse_arch(s) != Arch::UNKNOWN ==> arch_name(parse_arch(s)) is Some,
        parse_arch(s) matches Arch::AMD32(v) ==> arch_name(parse_arch(s)) == Some(variant_name(v)),
{
    reveal_strlit("arm");
    reveal_strlit("l");
    reveal_strlit("i");
    reveal_strlit("v5");
    reveal_strlit("v6");
    reveal_strlit("v7");
    reveal_strlit("386");
    reveal_strlit("586");
    reveal_strlit("686");
    reveal_strlit("armv5l");
    reveal_strlit("armv6l");
    reveal_strlit("armv7l");
    reveal_strlit("i386");
    reveal_strlit("i586");
    reveal_strlit("i686");
    assert("arm"@ + "v5"@ + "l"@ =~= "armv5l"@);
    assert("arm"@ + "v6"@ + "l"@ =~= "armv6l"@);
    assert("arm"@ + "v7"@ + "l"@ =~= "armv7l"@);
    assert("i"@ + "386"@ =~= "i386"@);
    assert("i"@ + "586"@ =~= "i586"@);
    assert("i"@ + "686"@ =~= "i686"@);
}

} // verus!
