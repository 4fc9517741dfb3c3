//! The record of the installed toolchain, and where its files live.
//!
//! Paths are text with `/` between components. The caller locates the home
//! directory, reads and writes the record, and checks what exists on disk.

use vstd::prelude::*;
use crate::error::CargoJamError;
use crate::template::config::opt_view;
use crate::text::{decimal, decimal_string, join_path, owned, path_join};

verus! {

/// The directory, under the home directory, that holds everything this tool
/// installs.
pub const HOME_SUBDIR: &'static str = ".cargo-polkajam";

/// The directory, under the toolchain directory, that an installed release
/// is unpacked to.
pub const NIGHTLY_DIR: &'static str = "polkajam-nightly";

/// The installation record.
#[derive(Debug)]
pub struct ToolchainConfig {
    /// The installed release, such as `nightly-2025-12-29`.
    pub installed_version: Option<String>,
    /// The toolchain directory.
    pub toolchain_path: Option<String>,
    /// When the release was installed, in seconds since the Unix epoch.
    pub installed_at: Option<String>,
}

impl Default for ToolchainConfig {
    fn default() -> (r: Self)
        ensures
            r.installed_version is None,
            r.toolchain_path is None,
            r.installed_at is None,
    {
        ToolchainConfig { installed_version: None, toolchain_path: None, installed_at: None }
    }
}

impl ToolchainConfig {
    /// The tool's directory under a home directory.
    pub open spec fn home_of(home: Seq<char>) -> Seq<char> {
        path_join(home, HOME_SUBDIR@)
    }

    /// The tool's directory, given the home directory if one was found.
    pub fn home_dir(home: Option<&str>) -> (r: Result<String, CargoJamError>)
        ensures
            match home {
                Some(h) => r matches Ok(p) && p@ == Self::home_of(h@),
                None => r matches Err(CargoJamError::Io(_)),
            },
    {
        match home {
            Some(h) => Ok(join_path(h, HOME_SUBDIR)),
            None => Err(CargoJamError::Io(owned("Could not determine home directory"))),
        }
    }

    /// The record's file: `config.toml` in the tool's directory.
    pub fn config_path(home: Option<&str>) -> (r: Result<String, CargoJamError>)
        ensures
            match home {
                Some(h) => r matches Ok(p) && p@ == path_join(Self::home_of(h@), "config.toml"@),
                None => r matches Err(CargoJamError::Io(_)),
            },
    {
        match Self::home_dir(home) {
            Ok(dir) => Ok(join_path(dir.as_str(), "config.toml")),
            Err(e) => Err(e),
        }
    }

    /// The toolchain directory: `toolchain` in the tool's directory.
    pub fn toolchain_dir(home: Option<&str>) -> (r: Result<String, CargoJamError>)
        ensures
            match home {
                Some(h) => r matches Ok(p) && p@ == path_join(Self::home_of(h@), "toolchain"@),
                None => r matches Err(CargoJamError::Io(_)),
            },
    {
        match Self::home_dir(home) {
            Ok(dir) => Ok(join_path(dir.as_str(), "toolchain")),
            Err(e) => Err(e),
        }
    }

    /// Where the unpacked release lives, when a toolchain directory is
    /// recorded.
    pub fn polkajam_dir(&self) -> (r: Option<String>)
        ensures
            opt_view(r) == match self.toolchain_path {
                Some(t) => Some(path_join(t@, NIGHTLY_DIR@)),
                None => None,
            },
    {
        match &self.toolchain_path {
            Some(t) => Some(join_path(t.as_str(), NIGHTLY_DIR)),
            None => None,
        }
    }

    /// Where a binary of the unpacked release lives, when a toolchain
    /// directory is recorded. Whether it is there is for the caller to check.
    pub fn binary_path(&self, binary_name: &str) -> (r: Option<String>)
        ensures
            opt_view(r) == match self.toolchain_path {
                Some(t) => Some(path_join(path_join(t@, NIGHTLY_DIR@), binary_name@)),
                None => None,
            },
    {
        match self.polkajam_dir() {
            Some(dir) => Some(join_path(dir.as_str(), binary_name)),
            None => None,
        }
    }

    /// Whether a toolchain is installed: a version and a directory are
    /// recorded, and the directory exists (`toolchain_exists`, which the
    /// caller checks on disk).
    pub fn is_installed(&self, toolchain_exists: bool) -> (r: bool)
        ensures
            r == (self.toolchain_path is Some && toolchain_exists && self.installed_version is Some),
    {
        match &self.toolchain_path {
            Some(_) => toolchain_exists && self.installed_version.is_some(),
            None => false,
        }
    }

    /// Records an installation made at `now_secs` seconds after the epoch.
    pub fn set_installed(&mut self, version: &str, path: &str, now_secs: u64)
        ensures
            opt_view(final(self).installed_version) == Some(version@),
            opt_view(final(self).toolchain_path) == Some(path@),
            opt_view(final(self).installed_at) == Some(decimal(now_secs as nat)),
    {
        self.installed_version = Some(owned(version));
        self.toolchain_path = Some(owned(path));
        self.installed_at = Some(decimal_string(now_secs));
    }
}

} // verus!
