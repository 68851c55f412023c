//! The failure classes of the installer.

use vstd::prelude::*;

verus! {

/// Everything that can stop an installation run. Each variant corresponds to
/// one step of the procedure; the first failure aborts the whole run.
#[derive(Clone, Copy, Debug, PartialEq, Eq, Structural)]
pub enum InstallError {
    /// The host operating system / CPU architecture pair has no prebuilt
    /// binary. Detected before any filesystem or network side effect.
    UnsupportedPlatform,
    /// Creating the installation directory (or one of its ancestors) failed.
    DirectoryCreationError,
    /// The HTTP fetch failed: connection failure, a non-success status, or a
    /// truncated transfer.
    NetworkError,
    /// Writing the binary into the installation directory failed.
    WriteError,
    /// Marking the written binary executable failed.
    PermissionError,
}

impl InstallError {
    /// A human-readable description of the failure, one fixed line per class.
    pub fn describe(&self) -> (r: &'static str)
        ensures
            *self == InstallError::UnsupportedPlatform ==> r@ == "unsupported platform or architecture"@,
            *self == InstallError::DirectoryCreationError ==> r@ == "could not create the installation directory"@,
            *self == InstallError::NetworkError ==> r@ == "could not download the binary"@,
            *self == InstallError::WriteError ==> r@ == "could not write the binary"@,
            *self == InstallError::PermissionError ==> r@ == "could not mark the binary executable"@,
    {
        match self {
            InstallError::UnsupportedPlatform => "unsupported platform or architecture",
            InstallError::DirectoryCreationError => "could not create the installation directory",
            InstallError::NetworkError => "could not download the binary",
            InstallError::WriteError => "could not write the binary",
            InstallError::PermissionError => "could not mark the binary executable",
        }
    }

    /// The process exit status for this failure class: distinct per class and
    /// never zero, so that a caller can tell the classes apart while zero
    /// still means success.
    pub fn exit_code(&self) -> (r: i32)
        ensures
            r != 0,
            r == 1 <==> *self == InstallError::UnsupportedPlatform,
            r == 2 <==> *self == InstallError::DirectoryCreationError,
            r == 3 <==> *self == InstallError::NetworkError,
            r == 4 <==> *self == InstallError::WriteError,
            r == 5 <==> *self == InstallError::PermissionError,
    {
        match self {
            InstallError::UnsupportedPlatform => 1,
            InstallError::DirectoryCreationError => 2,
            InstallError::NetworkError => 3,
            InstallError::WriteError => 4,
            InstallError::PermissionError => 5,
        }
    }
}

} // verus!
