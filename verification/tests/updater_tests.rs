use rserial::updater::{
    check_release, find_exe_asset, is_installer, newer_than, trim_leading_v, GitHubAsset, GitHubRelease,
};

fn asset(name: &str, size: u64) -> GitHubAsset {
    GitHubAsset {
        name: name.to_string(),
        browser_download_url: format!("https://example.invalid/{}", name),
        size,
    }
}

fn release(tag: &str, assets: Vec<GitHubAsset>) -> GitHubRelease {
    GitHubRelease {
        tag_name: tag.to_string(),
        name: None,
        html_url: "https://example.invalid/release".to_string(),
        assets,
    }
}

#[test]
fn an_installer_ends_with_exe_in_any_case() {
    assert!(is_installer("setup.exe"));
    assert!(is_installer("Setup.EXE"));
    assert!(is_installer("a.b.Exe"));
    assert!(is_installer(".exe"));
    assert!(!is_installer("setup.msi"));
    assert!(!is_installer("setup.exe.sig"));
    assert!(!is_installer("exe"));
    assert!(!is_installer(""));
}

#[test]
fn the_first_installer_among_the_files_is_found() {
    let assets = vec![asset("app.msi", 1), asset("notes.txt", 2), asset("App-Setup.EXE", 3), asset("other.exe", 4)];
    assert_eq!(find_exe_asset(&assets), Some(&assets[2]));
    let none = vec![asset("app.msi", 1), asset("app.dmg", 2)];
    assert_eq!(find_exe_asset(&none), None);
    assert_eq!(find_exe_asset(&[]), None);
}

#[test]
fn leading_vs_are_trimmed() {
    assert_eq!(trim_leading_v("v1.2.0"), "1.2.0");
    assert_eq!(trim_leading_v("vvv"), "");
    assert_eq!(trim_leading_v("1.v2"), "1.v2");
    assert_eq!(trim_leading_v(""), "");
}

#[test]
fn a_greater_version_is_newer() {
    assert!(newer_than("1.3.0", "1.2.9"));
    assert!(!newer_than("1.2.0", "1.2.0"));
    assert!(!newer_than("1.1.0", "1.2.0"));
    assert!(!newer_than("nightly", "1.2.0"));
    assert!(!newer_than("1.3.0", "dev"));
}

#[test]
fn a_newer_release_with_an_installer_is_an_update() {
    let found = check_release("v1.2.0", &release("v1.3.0", vec![asset("app.msi", 10), asset("app.exe", 20)]));
    assert!(found.has_update);
    assert_eq!(found.current_version, "1.2.0");
    assert_eq!(found.latest_version, "1.3.0");
    assert_eq!(found.download_url, Some("https://example.invalid/app.exe".to_string()));
    assert_eq!(found.download_size, Some(20));
    assert_eq!(found.release_url, "https://example.invalid/release");
    assert_eq!(found.asset_name, Some("app.exe".to_string()));
}

#[test]
fn the_same_or_an_older_release_is_no_update() {
    assert!(!check_release("1.3.0", &release("v1.3.0", Vec::new())).has_update);
    assert!(!check_release("2.0.0", &release("v1.9.9", Vec::new())).has_update);
}

#[test]
fn a_release_without_an_installer_offers_no_download() {
    let found = check_release("1.0.0", &release("2.0.0", vec![asset("app.msi", 10)]));
    assert!(found.has_update);
    assert_eq!(found.download_url, None);
    assert_eq!(found.download_size, None);
    assert_eq!(found.asset_name, None);
}

#[test]
fn a_tag_that_is_no_version_is_no_update() {
    let found = check_release("1.0.0", &release("latest", vec![asset("app.exe", 10)]));
    assert!(!found.has_update);
    assert_eq!(found.latest_version, "latest");
    assert_eq!(found.asset_name, Some("app.exe".to_string()));
}
