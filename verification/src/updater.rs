//! What a published release means for the running program: whether it is
//! newer, and which of its files is the installer.

use crate::text::{collect_chars, lowercase, string_of_chars, to_lowercase};
use crate::types::text_of;
use crate::version::{
    compare_versions,
    parsed_version,
    skip_leading_v,
    version_before,
    without_leading_v,
};
use std::cmp::Ordering;
use vstd::prelude::*;

verus! {

/// One file of a release.
#[derive(Debug, PartialEq, Eq)]
pub struct GitHubAsset {
    pub name: String,
    pub browser_download_url: String,
    pub size: u64,
}

/// A release as the hosting service describes it.
#[derive(Debug, PartialEq, Eq)]
pub struct GitHubRelease {
    pub tag_name: String,
    pub name: Option<String>,
    pub html_url: String,
    pub assets: Vec<GitHubAsset>,
}

/// The outcome of a check for updates.
#[derive(Debug, PartialEq, Eq)]
pub struct UpdateCheckResult {
    pub has_update: bool,
    pub current_version: String,
    pub latest_version: String,
    pub download_url: Option<String>,
    pub download_size: Option<u64>,
    pub release_url: String,
    pub asset_name: Option<String>,
}

/// How far a download has come.
#[derive(Clone, Copy, Debug, PartialEq, Eq, Structural)]
pub struct DownloadProgress {
    pub downloaded: u64,
    pub total: u64,
    pub percentage: u8,
}

/// The outcome of a check for updates as a value of sequences.
pub struct UpdateCheckResultView {
    pub has_update: bool,
    pub current_version: Seq<char>,
    pub latest_version: Seq<char>,
    pub download_url: Option<Seq<char>>,
    pub download_size: Option<u64>,
    pub release_url: Seq<char>,
    pub asset_name: Option<Seq<char>>,
}

impl View for UpdateCheckResult {
    type V = UpdateCheckResultView;

    open spec fn view(&self) -> UpdateCheckResultView {
        UpdateCheckResultView {
            has_update: self.has_update,
            current_version: self.current_version@,
            latest_version: self.latest_version@,
            download_url: text_of(self.download_url),
            download_size: self.download_size,
            release_url: self.release_url@,
            asset_name: text_of(self.asset_name),
        }
    }
}

/// Whether `text` ends with `suffix`.
pub open spec fn ends_with(text: Seq<char>, suffix: Seq<char>) -> bool {
    suffix.len() <= text.len() && text.subrange(text.len() - suffix.len(), text.len() as int)
        == suffix
}

/// Whether a file of the name `name` is an installer: in lower case the
/// name ends with `.exe`, and not with `.msi`.
pub open spec fn is_installer_name(name: Seq<char>) -> bool {
    ends_with(lowercase(name), seq!['.', 'e', 'x', 'e']) && !ends_with(
        lowercase(name),
        seq!['.', 'm', 's', 'i'],
    )
}

/// Whether `at` is the offset of the first installer among `assets`.
pub open spec fn is_first_installer(assets: Seq<GitHubAsset>, at: int) -> bool {
    &&& 0 <= at < assets.len()
    &&& is_installer_name(assets[at].name@)
    &&& forall|earlier: int|
        0 <= earlier < at ==> !is_installer_name(#[trigger] assets[earlier].name@)
}

/// Whether the release with the tag `latest` is newer than the running
/// version `current`: both write down a version, and the first is greater.
pub open spec fn is_newer(latest: Seq<char>, current: Seq<char>) -> bool {
    match (parsed_version(latest), parsed_version(current)) {
        (Some(l), Some(c)) => version_before(c, l),
        _ => false,
    }
}

/// Whether `text` ends with the four characters `a`, `b`, `c`, `d`.
fn ends_with_four(text: &Vec<char>, a: char, b: char, c: char, d: char) -> (ends: bool)
    ensures
        ends == ends_with(text@, seq![a, b, c, d]),
{
    let len = text.len();
    if len < 4 {
        return false;
    }
    let ends = text[len - 4] == a && text[len - 3] == b && text[len - 2] == c && text[len - 1]
        == d;
    if ends {
        assert(text@.subrange(len - 4, len as int) =~= seq![a, b, c, d]);
    }
    ends
}

/// Whether a file of the name `name` is an installer.
pub fn is_installer(name: &str) -> (installer: bool)
    ensures
        installer == is_installer_name(name@),
{
    let lower = to_lowercase(name);
    let chars = collect_chars(lower.as_str());
    ends_with_four(&chars, '.', 'e', 'x', 'e') && !ends_with_four(&chars, '.', 'm', 's', 'i')
}

/// The first of `assets` that is an installer, if there is one.
pub fn find_exe_asset(assets: &[GitHubAsset]) -> (found: Option<&GitHubAsset>)
    ensures
        match found {
            Some(asset) => exists|at: int|
                is_first_installer(assets@, at) && *asset == #[trigger] assets@[at],
            None => forall|at: int|
                0 <= at < assets@.len() ==> !is_installer_name(#[trigger] assets@[at].name@),
        },
{
    let mut at: usize = 0;
    while at < assets.len()
        invariant
            at <= assets@.len(),
            forall|earlier: int|
                0 <= earlier < at ==> !is_installer_name(#[trigger] assets@[earlier].name@),
        decreases assets@.len() - at,
    {
        if is_installer(assets[at].name.as_str()) {
            return Some(&assets[at]);
        }
        at += 1;
    }
    None
}

/// `text` without the `v`s it starts with.
pub fn trim_leading_v(text: &str) -> (trimmed: String)
    ensures
        trimmed@ == without_leading_v(text@),
{
    let chars = collect_chars(text);
    let from = skip_leading_v(&chars);
    let mut kept: Vec<char> = Vec::new();
    let mut at: usize = from;
    while at < chars.len()
        invariant
            from <= at <= chars@.len(),
            kept@ == chars@.subrange(from as int, at as int),
        decreases chars@.len() - at,
    {
        kept.push(chars[at]);
        at += 1;
    }
    string_of_chars(&kept)
}

/// What the release `release` means for the running version
/// `current_version`. There is an update where the release's tag writes
/// down a greater version than `current_version`; a tag or a running
/// version that writes down no version means no update. The download is
/// the first installer among the files of the release, if there is one.
/// Both versions are reported without leading `v`s.
pub fn check_release(current_version: &str, release: &GitHubRelease) -> (result: UpdateCheckResult)
    ensures
        result@.has_update == is_newer(release.tag_name@, current_version@),
        result@.current_version == without_leading_v(current_version@),
        result@.latest_version == without_leading_v(release.tag_name@),
        result@.release_url == release.html_url@,
        match result@.asset_name {
            Some(name) => exists|at: int|
                is_first_installer(release.assets@, at) && name
                    == #[trigger] release.assets@[at].name@ && result@.download_url == Some(
                    release.assets@[at].browser_download_url@,
                ) && result@.download_size == Some(release.assets@[at].size),
            None => result@.download_url is None && result@.download_size is None && forall|
                at: int,
            |
                0 <= at < release.assets@.len() ==> !is_installer_name(
                    #[trigger] release.assets@[at].name@,
                ),
        },
{
    let latest_version = trim_leading_v(release.tag_name.as_str());
    let current = trim_leading_v(current_version);
    proof {
        lemma_trimmed_version(release.tag_name@);
        lemma_trimmed_version(current_version@);
    }
    let has_update = newer_than(latest_version.as_str(), current.as_str());
    match find_exe_asset(release.assets.as_slice()) {
        Some(asset) => UpdateCheckResult {
            has_update,
            current_version: current,
            latest_version,
            download_url: Some(asset.browser_download_url.clone()),
            download_size: Some(asset.size),
            release_url: release.html_url.clone(),
            asset_name: Some(asset.name.clone()),
        },
        None => UpdateCheckResult {
            has_update,
            current_version: current,
            latest_version,
            download_url: None,
            download_size: None,
            release_url: release.html_url.clone(),
            asset_name: None,
        },
    }
}

/// Whether the version that `latest` writes down is greater than the one
/// that `current` writes down.
pub fn newer_than(latest: &str, current: &str) -> (newer: bool)
    ensures
        newer == is_newer(latest@, current@),
{
    match compare_versions(latest, current) {
        Some(Ordering::Greater) => true,
        _ => false,
    }
}

/// A text without its leading `v`s writes down the version that the text
/// writes down.
pub proof fn lemma_trimmed_version(text: Seq<char>)
    ensures
        parsed_version(without_leading_v(text)) == parsed_version(text),
{
    lemma_trim_is_idempotent(text);
}

/// A text without its leading `v`s has no leading `v`s left to lose.
pub proof fn lemma_trim_is_idempotent(text: Seq<char>)
    ensures
        without_leading_v(without_leading_v(text)) == without_leading_v(text),
    decreases text.len(),
{
    if text.len() > 0 && text[0] == 'v' {
        lemma_trim_is_idempotent(text.drop_first());
    }
}

} // verus!
