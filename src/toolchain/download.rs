//! Toolchain releases: which one to install, which of its assets fits the
//! platform, and where the release feed is. Fetching, unpacking and writing
//! files is the caller's part.

use vstd::prelude::*;
use crate::error::CargoJamError;
use crate::toolchain::config::{ToolchainConfig, NIGHTLY_DIR};
use crate::toolchain::platform::Platform;
use crate::text::{contains, decimal, decimal_string, has_prefix, occurs_in, owned, same_text, starts_with};

verus! {

/// The release feed of the toolchain.
pub const RELEASES_URL: &'static str = "https://api.github.com/repos/paritytech/polkajam-releases/releases";

/// A published release.
#[derive(Debug)]
pub struct GitHubRelease {
    pub tag_name: String,
    pub name: Option<String>,
    pub published_at: Option<String>,
    pub assets: Vec<GitHubAsset>,
}

/// A downloadable file of a release.
#[derive(Debug)]
pub struct GitHubAsset {
    pub name: String,
    pub browser_download_url: String,
    pub size: u64,
}

/// The tag of a nightly release starts with `nightly`.
pub open spec fn is_nightly(r: GitHubRelease) -> bool {
    has_prefix(r.tag_name@, "nightly"@)
}

/// The address that lists the latest `limit` releases.
pub fn releases_url(limit: usize) -> (r: String)
    ensures
        r@ == RELEASES_URL@ + "?per_page="@ + decimal(limit as nat),
{
    let mut r = owned(RELEASES_URL);
    r.append("?per_page=");
    let n = decimal_string(limit as u64);
    r.append(n.as_str());
    r
}

/// The address of the release tagged `version`.
pub fn release_url(version: &str) -> (r: String)
    ensures
        r@ == RELEASES_URL@ + "/tags/"@ + version@,
{
    let mut r = owned(RELEASES_URL);
    r.append("/tags/");
    r.append(version);
    r
}

/// The element at position `i`, taken out of the list.
fn take_at<T>(v: Vec<T>, i: usize) -> (r: T)
    requires
        i < v@.len(),
    ensures
        r == v@[i as int],
{
    let mut v = v;
    v.remove(i)
}

/// The first nightly release of a list, newest first as the feed gives them.
pub fn get_latest_release(releases: Vec<GitHubRelease>) -> (r: Result<GitHubRelease, CargoJamError>)
    ensures
        match r {
            Ok(rel) => exists|i: int|
                0 <= i < releases@.len() && is_nightly(releases@[i]) && rel == releases@[i]
                    && forall|j: int| 0 <= j < i ==> !#[trigger] is_nightly(releases@[j]),
            Err(e) => (forall|i: int| 0 <= i < releases@.len() ==> !#[trigger] is_nightly(releases@[i]))
                && (e matches CargoJamError::Git(m) && m@ == "No nightly releases found"@),
        },
{
    let ghost all = releases@;
    let mut i: usize = 0;
    while i < releases.len()
        invariant
            releases@ == all,
            i <= all.len(),
            forall|j: int| 0 <= j < i ==> !#[trigger] is_nightly(all[j]),
        decreases releases.len() - i,
    {
        let nightly = "nightly";
        if starts_with(releases[i].tag_name.as_str(), nightly) {
            let rel = take_at(releases, i);
            assert(is_nightly(all[i as int]) && rel == all[i as int]);
            return Ok(rel);
        }
        i = i + 1;
    }
    Err(CargoJamError::Git(owned("No nightly releases found")))
}

/// The position of the first asset of a release whose name holds the
/// platform's suffix.
pub fn find_platform_asset(release: &GitHubRelease, platform: &Platform) -> (r: Option<usize>)
    ensures
        match r {
            Some(i) => i < release.assets@.len() && occurs_in(
                release.assets@[i as int].name@,
                platform.suffix_text(),
            ) && forall|j: int|
                0 <= j < i ==> !occurs_in(#[trigger] release.assets@[j].name@, platform.suffix_text()),
            None => forall|j: int|
                0 <= j < release.assets@.len() ==> !occurs_in(
                    #[trigger] release.assets@[j].name@,
                    platform.suffix_text(),
                ),
        },
{
    let suffix = platform.asset_suffix();
    let mut i: usize = 0;
    while i < release.assets.len()
        invariant
            suffix@ == platform.suffix_text(),
            i <= release.assets@.len(),
            forall|j: int|
                0 <= j < i ==> !occurs_in(#[trigger] release.assets@[j].name@, platform.suffix_text()),
        decreases release.assets.len() - i,
    {
        if contains(release.assets[i].name.as_str(), suffix) {
            return Some(i);
        }
        i = i + 1;
    }
    None
}

/// Refuses to install the release that is already installed, unless forced.
/// `installed` is whether the record describes an installation present on
/// disk.
pub fn check_reinstall(config: &ToolchainConfig, installed: bool, release: &GitHubRelease, force: bool) -> (r:
    Result<(), CargoJamError>)
    ensures
        r is Err <==> (!force && installed && (config.installed_version matches Some(v) && v@
            == release.tag_name@)),
        r matches Err(e) ==> (e matches CargoJamError::Git(m) && m@ == "Version '"@
            + release.tag_name@ + "' is already installed. Use --force to reinstall."@),
{
    if !force && installed {
        if let Some(v) = &config.installed_version {
            if same_text(v.as_str(), release.tag_name.as_str()) {
                let mut msg = owned("Version '");
                msg.append(release.tag_name.as_str());
                msg.append("' is already installed. Use --force to reinstall.");
                return Err(CargoJamError::Git(msg));
            }
        }
    }
    Ok(())
}

/// Whether an unpacked directory holds a release that still has to be moved
/// to its fixed name: its name starts with `polkajam-` and is not already
/// that fixed name.
pub fn is_unpacked_release_dir(name: &str) -> (r: bool)
    ensures
        r == (has_prefix(name@, "polkajam-"@) && name@ != NIGHTLY_DIR@),
{
    starts_with(name, "polkajam-") && !same_text(name, NIGHTLY_DIR)
}

} // verus!
