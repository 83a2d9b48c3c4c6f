use vstd::prelude::*;

use super::text::{key_index, lemma_key_index_from, lookup};

verus! {

/// The operating systems a launcher targets.
#[derive(Debug, Clone, Copy, PartialEq, Eq, Structural)]
pub enum Platform {
    Windows,
    MacOs,
    Linux,
}

/// The processor architectures a launcher targets.
#[derive(Debug, Clone, Copy, PartialEq, Eq, Structural)]
pub enum Arch {
    X64,
    X86,
    Arm64,
    Arm,
}

/// The name Mojang's manifests give a platform.
pub open spec fn spec_mojang_name(p: Platform) -> Seq<char> {
    match p {
        Platform::Windows => "windows"@,
        Platform::MacOs => "osx"@,
        Platform::Linux => "linux"@,
    }
}

/// The name Node.js gives a platform (`process.platform`).
pub open spec fn spec_node_name(p: Platform) -> Seq<char> {
    match p {
        Platform::Windows => "win32"@,
        Platform::MacOs => "darwin"@,
        Platform::Linux => "linux"@,
    }
}

/// The name Mojang's manifests give an architecture.
pub open spec fn spec_arch_mojang_name(a: Arch) -> Seq<char> {
    match a {
        Arch::X64 => "x86_64"@,
        Arch::X86 => "x86"@,
        Arch::Arm64 => "arm64"@,
        Arch::Arm => "arm32"@,
    }
}

/// The word size of an architecture, as text.
pub open spec fn spec_bits(a: Arch) -> Seq<char> {
    match a {
        Arch::X64 | Arch::Arm64 => "64"@,
        Arch::X86 | Arch::Arm => "32"@,
    }
}

impl Platform {
    pub fn mojang_name(self) -> (r: &'static str)
        ensures
            r@ == spec_mojang_name(self),
    {
        proof {
            reveal_strlit("windows");
            reveal_strlit("osx");
            reveal_strlit("linux");
        }
        match self {
            Self::Windows => "windows",
            Self::MacOs => "osx",
            Self::Linux => "linux",
        }
    }

    pub fn node_name(self) -> (r: &'static str)
        ensures
            r@ == spec_node_name(self),
    {
        match self {
            Self::Windows => "win32",
            Self::MacOs => "darwin",
            Self::Linux => "linux",
        }
    }

    pub fn classpath_separator(self) -> (c: char)
        ensures
            c == (if self == Platform::Windows { ';' } else { ':' }),
    {
        match self {
            Self::Windows => ';',
            _ => ':',
        }
    }

    pub fn java_executable(self) -> (r: &'static str)
        ensures
            r@ == (if self == Platform::Windows { "bin/javaw.exe"@ } else { "bin/java"@ }),
    {
        match self {
            Self::Windows => "bin/javaw.exe",
            _ => "bin/java",
        }
    }
}

impl Arch {
    pub fn bits(self) -> (r: &'static str)
        ensures
            r@ == spec_bits(self),
    {
        match self {
            Self::X64 | Self::Arm64 => "64",
            Self::X86 | Self::Arm => "32",
        }
    }

    pub fn mojang_name(self) -> (r: &'static str)
        ensures
            r@ == spec_arch_mojang_name(self),
    {
        match self {
            Self::X64 => "x86_64",
            Self::X86 => "x86",
            Self::Arm64 => "arm64",
            Self::Arm => "arm32",
        }
    }
}

/// The architecture whose builds run: an Apple Silicon Mac runs x64 builds under Rosetta when
/// asked to.
pub open spec fn spec_effective_arch(platform: Platform, arch: Arch, intel_enabled_mac: bool) -> Arch {
    if intel_enabled_mac && platform == Platform::MacOs && arch == Arch::Arm64 {
        Arch::X64
    } else {
        arch
    }
}

pub fn effective_arch(platform: Platform, arch: Arch, intel_enabled_mac: bool) -> (r: Arch)
    ensures
        r == spec_effective_arch(platform, arch, intel_enabled_mac),
{
    if intel_enabled_mac && platform == Platform::MacOs && arch == Arch::Arm64 {
        Arch::X64
    } else {
        arch
    }
}

/// The value of a `natives` table entry, when present and not empty.
pub open spec fn non_empty_entry(natives: Seq<(String, String)>, key: Seq<char>) -> Option<Seq<char>> {
    match lookup(natives, key) {
        Some(v) if v@.len() > 0 => Some(v@),
        _ => None,
    }
}

/// The natives classifier of a library for a platform: the entry under Mojang's name for the
/// platform, or else the one under its `process.platform` name, skipping empty entries.
pub open spec fn spec_native_classifier(natives: Seq<(String, String)>, platform: Platform) -> Option<Seq<char>> {
    match non_empty_entry(natives, spec_mojang_name(platform)) {
        Some(v) => Some(v),
        None => non_empty_entry(natives, spec_node_name(platform)),
    }
}

fn non_empty_entry_exec(natives: &Vec<(String, String)>, key: &str) -> (r: Option<String>)
    ensures
        r matches Some(v) ==> non_empty_entry(natives@, key@) == Some(v@),
        r is None ==> non_empty_entry(natives@, key@) is None,
{
    match key_index(natives, key) {
        Some(i) => {
            proof { lemma_key_index_from(natives@, key@, 0); }
            let value = natives[i].1.clone();
            if value.as_str().unicode_len() > 0 {
                Some(value)
            } else {
                None
            }
        },
        None => None,
    }
}

/// The natives classifier of a library (its `natives` table as key/value pairs) for a platform.
pub fn native_classifier(natives: &Vec<(String, String)>, platform: Platform) -> (r: Option<String>)
    ensures
        r matches Some(v) ==> spec_native_classifier(natives@, platform) == Some(v@),
        r is None ==> spec_native_classifier(natives@, platform) is None,
{
    match non_empty_entry_exec(natives, platform.mojang_name()) {
        Some(v) => Some(v),
        None => non_empty_entry_exec(natives, platform.node_name()),
    }
}

/// The key of the Mojang Java runtime index for a platform and architecture.
pub open spec fn spec_java_runtime_platform(platform: Platform, arch: Arch) -> Option<Seq<char>> {
    match (platform, arch) {
        (Platform::Windows, Arch::X64) => Some("windows-x64"@),
        (Platform::Windows, Arch::X86) => Some("windows-x86"@),
        (Platform::Windows, Arch::Arm64) => Some("windows-arm64"@),
        (Platform::MacOs, Arch::X64) => Some("mac-os"@),
        (Platform::MacOs, Arch::Arm64) => Some("mac-os-arm64"@),
        (Platform::Linux, Arch::X64) => Some("linux"@),
        (Platform::Linux, Arch::X86) => Some("linux-i386"@),
        _ => None,
    }
}

pub fn java_runtime_platform(platform: Platform, arch: Arch) -> (r: Option<&'static str>)
    ensures
        r matches Some(s) ==> spec_java_runtime_platform(platform, arch) == Some(s@),
        r is None ==> spec_java_runtime_platform(platform, arch) is None,
{
    match (platform, arch) {
        (Platform::Windows, Arch::X64) => Some("windows-x64"),
        (Platform::Windows, Arch::X86) => Some("windows-x86"),
        (Platform::Windows, Arch::Arm64) => Some("windows-arm64"),
        (Platform::MacOs, Arch::X64) => Some("mac-os"),
        (Platform::MacOs, Arch::Arm64) => Some("mac-os-arm64"),
        (Platform::Linux, Arch::X64) => Some("linux"),
        (Platform::Linux, Arch::X86) => Some("linux-i386"),
        _ => None,
    }
}

} // verus!
