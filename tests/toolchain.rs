use cargo_polkajam::builder::cargo::CargoBuilder;
use cargo_polkajam::builder::pipeline::{check_jam_project, BuildPipeline, BuildProfile};
use cargo_polkajam::builder::polkatool::{is_jam_blob, DeployRequest, JamtBuilder};
use cargo_polkajam::text::decimal_string;
use cargo_polkajam::toolchain::config::ToolchainConfig;
use cargo_polkajam::toolchain::download::{
    check_reinstall, find_platform_asset, get_latest_release, is_unpacked_release_dir, release_url,
    releases_url, GitHubAsset, GitHubRelease,
};
use cargo_polkajam::toolchain::platform::Platform;
use cargo_polkajam::CargoJamError;

fn release(tag: &str, assets: &[&str]) -> GitHubRelease {
    GitHubRelease {
        tag_name: tag.to_string(),
        name: None,
        published_at: None,
        assets: assets
            .iter()
            .map(|a| GitHubAsset { name: a.to_string(), browser_download_url: format!("https://x/{}", a), size: 1 })
            .collect(),
    }
}

#[test]
fn test_asset_suffix() {
    assert_eq!(Platform::MacosAarch64.asset_suffix(), "macos-aarch64");
    assert_eq!(Platform::LinuxX86_64.asset_suffix(), "linux-x86_64");
}

#[test]
fn platform_archives() {
    assert_eq!(Platform::WindowsX86_64.archive_extension(), "zip");
    assert_eq!(Platform::LinuxAarch64.archive_extension(), "tar.gz");
    assert_eq!(Platform::MacosX86_64.asset_filename("nightly-1"), "polkajam-macos-x86_64.tar.gz");
    assert_eq!(Platform::WindowsX86_64.asset_filename("v"), "polkajam-windows-x86_64.zip");
}

#[test]
fn platform_from_os_and_arch() {
    assert_eq!(Platform::from_os_arch("linux", "x86_64").unwrap(), Platform::LinuxX86_64);
    assert_eq!(Platform::from_os_arch("macos", "aarch64").unwrap(), Platform::MacosAarch64);
    match Platform::from_os_arch("freebsd", "x86_64") {
        Err(CargoJamError::ToolchainMissing { tool, install_hint }) => {
            assert_eq!(tool, "polkajam");
            assert!(install_hint.starts_with("Unsupported platform: freebsd-x86_64."));
        }
        other => panic!("unexpected {:?}", other),
    }
}

#[test]
fn latest_nightly_is_first_nightly() {
    let rs = vec![release("v1.0", &[]), release("nightly-2025-12-29", &[]), release("nightly-2025-12-28", &[])];
    assert_eq!(get_latest_release(rs).unwrap().tag_name, "nightly-2025-12-29");
    match get_latest_release(vec![release("v1", &[])]) {
        Err(CargoJamError::Git(m)) => assert_eq!(m, "No nightly releases found"),
        other => panic!("unexpected {:?}", other),
    }
}

#[test]
fn asset_for_platform() {
    let r = release("nightly", &["polkajam-macos-aarch64.tar.gz", "polkajam-linux-x86_64.tar.gz"]);
    assert_eq!(find_platform_asset(&r, &Platform::LinuxX86_64), Some(1));
    assert_eq!(find_platform_asset(&r, &Platform::WindowsX86_64), None);
}

#[test]
fn reinstall_needs_force() {
    let mut c = ToolchainConfig::default();
    c.set_installed("nightly-1", "/h/.cargo-polkajam/toolchain", 1700000000);
    assert_eq!(c.installed_at, Some("1700000000".to_string()));
    let r = release("nightly-1", &[]);
    match check_reinstall(&c, true, &r, false) {
        Err(CargoJamError::Git(m)) => {
            assert_eq!(m, "Version 'nightly-1' is already installed. Use --force to reinstall.")
        }
        other => panic!("unexpected {:?}", other),
    }
    assert!(check_reinstall(&c, true, &r, true).is_ok());
    assert!(check_reinstall(&c, false, &r, false).is_ok());
    assert!(check_reinstall(&c, true, &release("nightly-2", &[]), false).is_ok());
}

#[test]
fn toolchain_paths() {
    assert_eq!(ToolchainConfig::home_dir(Some("/home/u")).unwrap(), "/home/u/.cargo-polkajam");
    assert_eq!(ToolchainConfig::config_path(Some("/home/u/")).unwrap(), "/home/u/.cargo-polkajam/config.toml");
    assert_eq!(ToolchainConfig::toolchain_dir(Some("/h")).unwrap(), "/h/.cargo-polkajam/toolchain");
    assert!(matches!(ToolchainConfig::home_dir(None), Err(CargoJamError::Io(_))));
    let mut c = ToolchainConfig::default();
    assert_eq!(c.binary_path("jamt"), None);
    assert!(!c.is_installed(true));
    c.set_installed("nightly-1", "/t", 5);
    assert_eq!(c.polkajam_dir(), Some("/t/polkajam-nightly".to_string()));
    assert_eq!(c.binary_path("jamt"), Some("/t/polkajam-nightly/jamt".to_string()));
    assert!(c.is_installed(true));
    assert!(!c.is_installed(false));
}

#[test]
fn release_addresses() {
    assert_eq!(
        releases_url(10),
        "https://api.github.com/repos/paritytech/polkajam-releases/releases?per_page=10"
    );
    assert_eq!(
        release_url("nightly-1"),
        "https://api.github.com/repos/paritytech/polkajam-releases/releases/tags/nightly-1"
    );
    assert_eq!(decimal_string(0), "0");
    assert_eq!(decimal_string(18446744073709551615), "18446744073709551615");
}

#[test]
fn unpacked_release_dirs() {
    assert!(is_unpacked_release_dir("polkajam-nightly-2025-12-29-linux"));
    assert!(!is_unpacked_release_dir("polkajam-nightly"));
    assert!(!is_unpacked_release_dir("other"));
}

#[test]
fn cargo_command_line() {
    let args = CargoBuilder::new().command_args();
    assert_eq!(
        args,
        vec![
            "build", "--target", "riscv32ema-unknown-none-elf", "--release", "-Z", "build-std=core,alloc", "-Z",
            "build-std-features=panic_immediate_abort"
        ]
    );
    let args = CargoBuilder::new().release(false).verbose(true).command_args();
    assert_eq!(args[3], "--verbose");
    assert_eq!(args.len(), 8);
}

#[test]
fn pipeline_command_line() {
    let p = BuildPipeline::new("svc".to_string());
    assert_eq!(p.command_args(), vec!["svc", "-p", "release", "-m", "service", "--auto-install"]);
    let p = BuildPipeline::new("svc".to_string())
        .release(false)
        .output("out.jam".to_string())
        .auto_install(false)
        .verbose(true);
    assert_eq!(p.command_args(), vec!["svc", "-o", "out.jam", "-p", "debug", "-m", "service"]);
    let p = BuildPipeline::new("svc".to_string()).profile(BuildProfile::Production);
    assert_eq!(p.command_args()[2], "production");
    assert_eq!(BuildProfile::default().as_str(), "release");
}

#[test]
fn jamt_command_line_and_location() {
    let j = JamtBuilder::new().verbose(true);
    assert_eq!(j.command_args("a.elf", "a.jam"), vec!["build", "a.elf", "-o", "a.jam", "--verbose"]);
    assert!(!JamtBuilder::is_available(&None));
    assert!(JamtBuilder::is_available(&Some("/t/jamt".to_string())));
    assert_eq!(JamtBuilder::binary_path(Some("/t/jamt".to_string())).unwrap(), "/t/jamt");
    assert!(matches!(JamtBuilder::binary_path(None), Err(CargoJamError::ToolchainMissing { .. })));
}

#[test]
fn jam_project_detection() {
    assert!(check_jam_project(Some("[dependencies]\njam-pvm-common = \"1\"")).is_ok());
    assert!(check_jam_project(Some("jam_pvm_common = { path = \"x\" }")).is_ok());
    assert!(matches!(check_jam_project(Some("[package]")), Err(CargoJamError::NotJamProject(_))));
    assert!(matches!(check_jam_project(None), Err(CargoJamError::NotJamProject(_))));
}

#[test]
fn deploy_command_line() {
    let mut d = DeployRequest {
        rpc: "ws://localhost:19800".to_string(),
        code: "svc.jam".to_string(),
        amount: "0".to_string(),
        memo: "".to_string(),
        min_item_gas: "1000000".to_string(),
        min_memo_gas: "1000000".to_string(),
        register: None,
    };
    assert_eq!(
        d.command_args(),
        vec!["--rpc", "ws://localhost:19800", "create-service", "svc.jam", "0", "--min-item-gas", "1000000", "--min-memo-gas", "1000000"]
    );
    d.memo = "hello".to_string();
    d.register = Some("boot".to_string());
    let args = d.command_args();
    assert_eq!(args[5], "hello");
    assert_eq!(&args[10..], &["--register".to_string(), "boot".to_string()]);
}

#[test]
fn jam_blob_extension() {
    assert!(is_jam_blob("out/svc.jam"));
    assert!(is_jam_blob("svc.jam"));
    assert!(!is_jam_blob(".jam"));
    assert!(!is_jam_blob("dir/.jam"));
    assert!(!is_jam_blob("svc.jamx"));
}
