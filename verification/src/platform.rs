//! Platform keys and the file names derived from them.

use vstd::prelude::*;
use crate::text::chain;

verus! {

/// The four platform flavours a native module is published for.
#[derive(Clone, Copy, Debug, PartialEq, Eq, Structural)]
pub enum PlatformKey {
    Win64,
    Win32,
    Linux64,
    Linux,
}

/// The key for an operating system family and a processor architecture.
pub open spec fn platform_of(windows: bool, x86_64: bool) -> PlatformKey {
    if windows {
        if x86_64 { PlatformKey::Win64 } else { PlatformKey::Win32 }
    } else {
        if x86_64 { PlatformKey::Linux64 } else { PlatformKey::Linux }
    }
}

/// The suffix token that release assets carry for a platform.
pub open spec fn suffix_of(key: PlatformKey) -> Seq<char> {
    match key {
        PlatformKey::Win64 => "win64"@,
        PlatformKey::Win32 => "win32"@,
        PlatformKey::Linux64 => "linux64"@,
        PlatformKey::Linux => "linux"@,
    }
}

/// `<prefix>_<component>_<suffix>.<ext>`, the name under which a component's
/// binary is published and installed.
pub open spec fn asset_name_spec(
    prefix: Seq<char>,
    component: Seq<char>,
    suffix: Seq<char>,
    ext: Seq<char>,
) -> Seq<char> {
    prefix + seq!['_'] + component + seq!['_'] + suffix + seq!['.'] + ext
}

impl PlatformKey {
    /// Derives the key from the two facts the host knows about itself.
    pub fn detect(windows: bool, x86_64: bool) -> (key: PlatformKey)
        ensures
            key == platform_of(windows, x86_64),
    {
        if windows {
            if x86_64 { PlatformKey::Win64 } else { PlatformKey::Win32 }
        } else {
            if x86_64 { PlatformKey::Linux64 } else { PlatformKey::Linux }
        }
    }

    /// The suffix token of this platform.
    pub fn suffix(self) -> (s: &'static str)
        ensures
            s@ == suffix_of(self),
    {
        match self {
            PlatformKey::Win64 => "win64",
            PlatformKey::Win32 => "win32",
            PlatformKey::Linux64 => "linux64",
            PlatformKey::Linux => "linux",
        }
    }
}

/// The suffix token for an operating system family and an architecture:
/// `win64`, `win32`, `linux64` or `linux`.
pub fn get_platform_suffix(windows: bool, x86_64: bool) -> (s: &'static str)
    ensures
        s@ == suffix_of(platform_of(windows, x86_64)),
{
    PlatformKey::detect(windows, x86_64).suffix()
}

/// Builds `<prefix>_<component>_<suffix>.<ext>`.
pub fn asset_file_name(prefix: &str, component: &str, suffix: &str, ext: &str) -> (r: String)
    ensures
        r@ == asset_name_spec(prefix@, component@, suffix@, ext@),
{
    proof {
        reveal_strlit("_");
        reveal_strlit(".");
        assert("_"@ =~= seq!['_']);
        assert("."@ =~= seq!['.']);
    }
    let mut out = chain(prefix, "_");
    out.append(component);
    out.append("_");
    out.append(suffix);
    out.append(".");
    out.append(ext);
    out
}

} // verus!
