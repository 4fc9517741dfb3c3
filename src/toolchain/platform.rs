//! The platforms for which toolchain releases are published.

use vstd::prelude::*;
use crate::error::CargoJamError;
use crate::text::{owned, same_text};

verus! {

/// A supported platform.
#[derive(Debug, Clone, Copy, PartialEq, Eq, Structural)]
pub enum Platform {
    MacosAarch64,
    MacosX86_64,
    LinuxX86_64,
    LinuxAarch64,
    WindowsX86_64,
}

impl Platform {
    /// The operating system and architecture names of the platform, as Rust
    /// spells them.
    pub open spec fn os_arch(&self) -> (Seq<char>, Seq<char>) {
        match self {
            Platform::MacosAarch64 => ("macos"@, "aarch64"@),
            Platform::MacosX86_64 => ("macos"@, "x86_64"@),
            Platform::LinuxX86_64 => ("linux"@, "x86_64"@),
            Platform::LinuxAarch64 => ("linux"@, "aarch64"@),
            Platform::WindowsX86_64 => ("windows"@, "x86_64"@),
        }
    }

    /// The suffix that release assets carry for the platform.
    pub open spec fn suffix_text(&self) -> Seq<char> {
        match self {
            Platform::MacosAarch64 => "macos-aarch64"@,
            Platform::MacosX86_64 => "macos-x86_64"@,
            Platform::LinuxX86_64 => "linux-x86_64"@,
            Platform::LinuxAarch64 => "linux-aarch64"@,
            Platform::WindowsX86_64 => "windows-x86_64"@,
        }
    }

    /// The archive format of the platform's assets.
    pub open spec fn extension_text(&self) -> Seq<char> {
        match self {
            Platform::WindowsX86_64 => "zip"@,
            _ => "tar.gz"@,
        }
    }

    /// The platform of an operating system and architecture, when it is
    /// supported.
    pub fn from_os_arch(os: &str, arch: &str) -> (r: Result<Platform, CargoJamError>)
        ensures
            match r {
                Ok(p) => p.os_arch() == (os@, arch@),
                Err(e) => (forall|p: Platform| #[trigger] p.os_arch() != (os@, arch@))
                    && e is ToolchainMissing,
            },
    {
        if same_text(os, "macos") && same_text(arch, "aarch64") {
            Ok(Platform::MacosAarch64)
        } else if same_text(os, "macos") && same_text(arch, "x86_64") {
            Ok(Platform::MacosX86_64)
        } else if same_text(os, "linux") && same_text(arch, "x86_64") {
            Ok(Platform::LinuxX86_64)
        } else if same_text(os, "linux") && same_text(arch, "aarch64") {
            Ok(Platform::LinuxAarch64)
        } else if same_text(os, "windows") && same_text(arch, "x86_64") {
            Ok(Platform::WindowsX86_64)
        } else {
            assert forall|p: Platform| #[trigger] p.os_arch() != (os@, arch@) by {
                match p {
                    Platform::MacosAarch64 => {},
                    Platform::MacosX86_64 => {},
                    Platform::LinuxX86_64 => {},
                    Platform::LinuxAarch64 => {},
                    Platform::WindowsX86_64 => {},
                }
            }
            let mut hint = owned("Unsupported platform: ");
            hint.append(os);
            hint.append("-");
            hint.append(arch);
            hint.append(
                ". Supported: macos-aarch64, macos-x86_64, linux-x86_64, linux-aarch64, windows-x86_64",
            );
            Err(CargoJamError::ToolchainMissing { tool: owned("polkajam"), install_hint: hint })
        }
    }

    /// The asset name suffix for this platform.
    pub fn asset_suffix(&self) -> (r: &'static str)
        ensures
            r@ == self.suffix_text(),
    {
        match self {
            Platform::MacosAarch64 => "macos-aarch64",
            Platform::MacosX86_64 => "macos-x86_64",
            Platform::LinuxX86_64 => "linux-x86_64",
            Platform::LinuxAarch64 => "linux-aarch64",
            Platform::WindowsX86_64 => "windows-x86_64",
        }
    }

    /// The archive extension for this platform.
    pub fn archive_extension(&self) -> (r: &'static str)
        ensures
            r@ == self.extension_text(),
    {
        match self {
            Platform::WindowsX86_64 => "zip",
            _ => "tar.gz",
        }
    }

    /// The name of the release asset for this platform; every release names
    /// its assets the same way, whatever the version.
    pub fn asset_filename(&self, _version: &str) -> (r: String)
        ensures
            r@ == "polkajam-"@ + self.suffix_text() + "."@ + self.extension_text(),
    {
        let mut r = owned("polkajam-");
        r.append(self.asset_suffix());
        r.append(".");
        r.append(self.archive_extension());
        r
    }
}

} // verus!
