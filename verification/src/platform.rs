//! Platform resolution: from the host operating system and CPU architecture
//! to the download URL, the local binary filename and the installation
//! directory.

use vstd::prelude::*;
use crate::errors::InstallError;

verus! {

/// The host operating system, as detected at run time. `Other` stands for
/// every system without a prebuilt binary.
#[derive(Clone, Copy, Debug, PartialEq, Eq, Structural)]
pub enum Os {
    Windows,
    Linux,
    MacOs,
    Other,
}

/// The host CPU architecture. Only one 64-bit family is supported; `Other`
/// stands for everything else.
#[derive(Clone, Copy, Debug, PartialEq, Eq, Structural)]
pub enum Arch {
    X86_64,
    Other,
}

/// The supported platforms: exactly the three (operating system, x86-64)
/// pairs with a prebuilt binary. Every other pair must abort the run before
/// any side effect.
pub open spec fn spec_supported(os: Os, arch: Arch) -> bool {
    arch == Arch::X86_64 && (os == Os::Windows || os == Os::Linux || os == Os::MacOs)
}

/// The fixed download URL of the prebuilt binary for each supported system:
/// the latest-release asset whose name carries the architecture and an
/// operating-system suffix (`windows`, `linux`, `osx`).
pub open spec fn spec_binary_url(os: Os) -> Seq<char> {
    match os {
        Os::Windows => "https://github.com/XnLogicaL/via-lang/releases/latest/download/via-x86_64-windows.exe"@,
        Os::Linux => "https://github.com/XnLogicaL/via-lang/releases/latest/download/via-x86_64-linux"@,
        Os::MacOs => "https://github.com/XnLogicaL/via-lang/releases/latest/download/via-x86_64-osx"@,
        Os::Other => Seq::<char>::empty(),
    }
}

/// The local filename of the installed binary: `via.exe` on Windows, `via`
/// everywhere else.
pub open spec fn spec_binary_filename(os: Os) -> Seq<char> {
    if os == Os::Windows {
        "via.exe"@
    } else {
        "via"@
    }
}

/// The fixed installation directory for each supported system. macOS has no
/// conventional equivalent of the other two system paths, so it gets
/// `/usr/local/lib/via`.
pub open spec fn spec_install_dir(os: Os) -> Seq<char> {
    match os {
        Os::Windows => "C:\\Program Files\\via"@,
        Os::Linux => "/usr/lib/via"@,
        Os::MacOs => "/usr/local/lib/via"@,
        Os::Other => Seq::<char>::empty(),
    }
}

/// Everything platform resolution decides: the download URL, the local
/// binary filename and the installation directory, for one supported host.
pub struct Target {
    pub os: Os,
    pub url: &'static str,
    pub filename: &'static str,
    pub dir: &'static str,
}

impl Target {
    /// A resolved target carries exactly the strings that the platform
    /// tables above assign to its operating system.
    pub open spec fn well_formed(self) -> bool {
        &&& self.os != Os::Other
        &&& self.url@ == spec_binary_url(self.os)
        &&& self.filename@ == spec_binary_filename(self.os)
        &&& self.dir@ == spec_install_dir(self.os)
    }
}

/// The download URL for the host platform, or `UnsupportedPlatform` for
/// every pair outside the supported set.
pub fn get_binary_url(os: Os, arch: Arch) -> (r: Result<&'static str, InstallError>)
    ensures
        spec_supported(os, arch) ==> (r matches Ok(u) && u@ == spec_binary_url(os)),
        !spec_supported(os, arch) ==> r == Err::<&'static str, InstallError>(InstallError::UnsupportedPlatform),
{
    if arch == Arch::X86_64 {
        match os {
            Os::Windows => Ok(
                "https://github.com/XnLogicaL/via-lang/releases/latest/download/via-x86_64-windows.exe",
            ),
            Os::Linux => Ok(
                "https://github.com/XnLogicaL/via-lang/releases/latest/download/via-x86_64-linux",
            ),
            Os::MacOs => Ok(
                "https://github.com/XnLogicaL/via-lang/releases/latest/download/via-x86_64-osx",
            ),
            Os::Other => Err(InstallError::UnsupportedPlatform),
        }
    } else {
        Err(InstallError::UnsupportedPlatform)
    }
}

/// The local filename of the installed binary for the given system.
pub fn binary_filename(os: Os) -> (r: &'static str)
    ensures
        r@ == spec_binary_filename(os),
{
    if os == Os::Windows {
        "via.exe"
    } else {
        "via"
    }
}

/// The installation directory for the given supported system.
pub fn install_dir(os: Os) -> (r: &'static str)
    requires
        os != Os::Other,
    ensures
        r@ == spec_install_dir(os),
{
    match os {
        Os::Windows => "C:\\Program Files\\via",
        Os::Linux => "/usr/lib/via",
        Os::MacOs => "/usr/local/lib/via",
        Os::Other => vstd::pervasive::unreached(),
    }
}

/// Platform resolution, the first step of a run: for a supported pair the
/// full target (URL, filename, directory), for every other pair the
/// `UnsupportedPlatform` failure and nothing else.
pub fn resolve_target(os: Os, arch: Arch) -> (r: Result<Target, InstallError>)
    ensures
        spec_supported(os, arch) ==> (r matches Ok(t) && t.os == os && t.well_formed()),
        !spec_supported(os, arch) ==> (r matches Err(e) && e == InstallError::UnsupportedPlatform),
{
    let url = match get_binary_url(os, arch) {
        Ok(u) => u,
        Err(e) => {
            return Err(e);
        },
    };
    Ok(Target { os, url, filename: binary_filename(os), dir: install_dir(os) })
}

} // verus!
