//! The update check: what the published release document says against the
//! version that is running. Fetching the document and replacing the program
//! are left to the caller.

use crate::text::{strip_leading, trim_start_matches};
use vstd::hash_map::StringHashMap;
use vstd::prelude::*;
use vstd::string::*;

verus! {

/// The version of this program.
pub const VERSION: &'static str = "0.1.0";

/// Where the release document of the latest release is published.
pub const UPDATE_CHECK_URL: &'static str =
    "https://github.com/Yasar195/rust_cli_todo/releases/latest/download/version.json";

/// The owner of the repository that publishes the releases.
pub const REPO_OWNER: &'static str = "Yasar195";

/// The repository that publishes the releases.
pub const REPO_NAME: &'static str = "rust_cli_todo";

/// The name of the program inside a release.
pub const BIN_NAME: &'static str = "todo";

/// The release document: the latest version, its date, and for each platform
/// the address of its download.
pub struct VersionInfo {
    pub version: String,
    pub release_date: String,
    pub downloads: StringHashMap<String>,
}

/// What a [`VersionInfo`] holds.
pub struct VersionInfoView {
    pub version: Seq<char>,
    pub release_date: Seq<char>,
    pub downloads: Map<Seq<char>, Seq<char>>,
}

impl View for VersionInfo {
    type V = VersionInfoView;

    open spec fn view(&self) -> VersionInfoView {
        VersionInfoView {
            version: self.version@,
            release_date: self.release_date@,
            downloads: self.downloads@.map_values(|url: String| url@),
        }
    }
}

impl VersionInfo {
    /// A release document without downloads.
    pub fn new(version: String, release_date: String) -> (r: Self)
        ensures
            r@.version == version@,
            r@.release_date == release_date@,
            r@.downloads == Map::<Seq<char>, Seq<char>>::empty(),
    {
        let r = VersionInfo { version, release_date, downloads: StringHashMap::new() };
        assert(r@.downloads =~= Map::<Seq<char>, Seq<char>>::empty());
        r
    }

    /// Records `url` as the download for `platform`, in place of an earlier
    /// one for it.
    pub fn add_download(&mut self, platform: String, url: String)
        ensures
            final(self)@ == (VersionInfoView {
                downloads: old(self)@.downloads.insert(platform@, url@),
                ..old(self)@
            }),
    {
        self.downloads.insert(platform, url);
        assert(self@.downloads =~= old(self)@.downloads.insert(platform@, url@));
    }
}

/// The outcome of an update check.
#[derive(Debug, Clone, PartialEq, Eq)]
pub struct UpdateInfo {
    pub current_version: String,
    pub latest_version: String,
    pub update_available: bool,
    pub download_url: Option<String>,
}

/// What an [`UpdateInfo`] holds.
pub struct UpdateInfoView {
    pub current_version: Seq<char>,
    pub latest_version: Seq<char>,
    pub update_available: bool,
    pub download_url: Option<Seq<char>>,
}

impl View for UpdateInfo {
    type V = UpdateInfoView;

    open spec fn view(&self) -> UpdateInfoView {
        UpdateInfoView {
            current_version: self.current_version@,
            latest_version: self.latest_version@,
            update_available: self.update_available,
            download_url: self.download_url.deep_view(),
        }
    }
}

/// Why an update check gave no outcome.
#[derive(Debug, Clone, Copy, PartialEq, Eq, Structural)]
pub enum UpdateError {
    /// The running version is no semantic version.
    InvalidCurrentVersion,
    /// The version in the release document is no semantic version.
    InvalidLatestVersion,
    /// A newer version is published, without a download for this platform.
    MissingDownload,
}

/// The operating system a program is built for.
#[derive(Debug, Clone, Copy, PartialEq, Eq, Structural)]
pub enum Os {
    Linux,
    Macos,
    Windows,
    Other,
}

/// The processor architecture a program is built for.
#[derive(Debug, Clone, Copy, PartialEq, Eq, Structural)]
pub enum Arch {
    X86_64,
    Aarch64,
    Other,
}

/// What a program is built for. `musl` says whether it is linked against the
/// musl C library.
#[derive(Debug, Clone, Copy, PartialEq, Eq, Structural)]
pub struct Target {
    pub os: Os,
    pub arch: Arch,
    pub musl: bool,
}

/// The name under which the release document lists the download for `target`;
/// "unknown" for a target that has no release.
pub open spec fn platform_identifier(target: Target) -> Seq<char> {
    match (target.os, target.arch) {
        (Os::Linux, Arch::X86_64) => if target.musl {
            "linux-musl-amd64"@
        } else {
            "linux-amd64"@
        },
        (Os::Macos, Arch::X86_64) => "macos-amd64"@,
        (Os::Macos, Arch::Aarch64) => "macos-arm64"@,
        (Os::Windows, Arch::X86_64) => "windows-amd64"@,
        _ => "unknown"@,
    }
}

/// The version of this program.
pub fn get_current_version() -> (r: &'static str)
    ensures
        r@ == VERSION@,
{
    VERSION
}

/// The name under which the release document lists the download for `target`.
pub fn get_platform_identifier(target: Target) -> (r: &'static str)
    ensures
        r@ == platform_identifier(target),
{
    match (target.os, target.arch) {
        (Os::Linux, Arch::X86_64) => if target.musl {
            "linux-musl-amd64"
        } else {
            "linux-amd64"
        },
        (Os::Macos, Arch::X86_64) => "macos-amd64",
        (Os::Macos, Arch::Aarch64) => "macos-arm64",
        (Os::Windows, Arch::X86_64) => "windows-amd64",
        _ => "unknown",
    }
}

/// The address of the download for `platform`, which the document has to
/// list.
pub fn get_download_url_from_info(info: &VersionInfo, platform: &str) -> (r: String)
    requires
        info@.downloads.contains_key(platform@),
    ensures
        r@ == info@.downloads[platform@],
{
    match info.downloads.get(platform) {
        Some(url) => url.clone(),
        None => vstd::pervasive::unreached(),
    }
}

/// `semver::Error`, the error of `semver::Version::parse`. Nothing is known
/// of what it holds.
#[verifier::external_type_specification]
#[verifier::external_body]
pub struct ExSemverError(semver::Error);

/// How the semantic-version parser writes the version it reads from `text`:
/// what `Display` gives for the result of `semver::Version::parse`, and `None`
/// where the parser rejects `text`.
pub uninterp spec fn semver_display(text: Seq<char>) -> Option<Seq<char>>;

/// Whether the version read from `latest` is greater than the one read from
/// `current` in the order of `semver::Version`, and `None` where the parser
/// rejects either text.
pub uninterp spec fn semver_newer(latest: Seq<char>, current: Seq<char>) -> Option<bool>;

/// `semver::Version::parse`, and `Display` on what it returns. Trusted: the
/// result is the parser's error where it rejects `text`, and else the version
/// as `Display` writes it; both depend on `text` alone.
#[verifier::external_body]
fn displayed_version(text: &str) -> (r: Result<String, semver::Error>)
    ensures
        match r {
            Ok(shown) => semver_display(text@) == Some(shown@),
            Err(_) => semver_display(text@) is None,
        },
{
    match semver::Version::parse(text) {
        Ok(version) => Ok(version.to_string()),
        Err(e) => Err(e),
    }
}

/// `>` on `semver::Version`, between the versions that
/// `semver::Version::parse` reads from the two texts. Trusted: the result is
/// `None` where either text is rejected, and else whether the first version
/// is the greater; it depends on the two texts alone. So there is a result
/// exactly where the parser accepts both texts, which is where
/// [`semver_display`] has one for both; and since `>` is the strict order
/// that `semver::Version` derives, no text gives a version greater than the
/// one it gives itself.
#[verifier::external_body]
fn newer_version(latest: &str, current: &str) -> (r: Option<bool>)
    ensures
        r == semver_newer(latest@, current@),
        (r is Some) == (semver_display(latest@) is Some && semver_display(current@) is Some),
        r == Some(true) ==> latest@ != current@,
{
    match (semver::Version::parse(latest), semver::Version::parse(current)) {
        (Ok(latest), Ok(current)) => Some(latest > current),
        _ => None,
    }
}

/// What follows once it is known whether the published version is greater
/// than the running one, which is written `shown`: an update is available
/// exactly if it is, and its download for `platform` is then required. The
/// running version is reported with a `v` in front, the published one as the
/// document has it.
pub open spec fn update_decision(
    shown: Seq<char>,
    info: VersionInfoView,
    platform: Seq<char>,
    newer: bool,
) -> Result<UpdateInfoView, UpdateError> {
    if newer && !info.downloads.contains_key(platform) {
        Err(UpdateError::MissingDownload)
    } else {
        Ok(
            UpdateInfoView {
                current_version: "v"@ + shown,
                latest_version: info.version,
                update_available: newer,
                download_url: if newer {
                    Some(info.downloads[platform])
                } else {
                    None
                },
            },
        )
    }
}

/// The outcome of checking the release document `info` against the running
/// version `current`, for the download named `platform`. A `v` in front of
/// either version is not part of it. The running version is read first and
/// the published one second, and the first that the parser rejects gives the
/// error. Where it accepts both, an update is available exactly if the
/// published version is the greater.
pub open spec fn release_outcome(
    current: Seq<char>,
    info: VersionInfoView,
    platform: Seq<char>,
) -> Result<UpdateInfoView, UpdateError> {
    let running = strip_leading(current, 'v');
    let latest = strip_leading(info.version, 'v');
    match semver_display(running) {
        None => Err(UpdateError::InvalidCurrentVersion),
        Some(shown) => match semver_display(latest) {
            None => Err(UpdateError::InvalidLatestVersion),
            Some(_) => update_decision(
                shown,
                info,
                platform,
                semver_newer(latest, running) == Some(true),
            ),
        },
    }
}

/// Whether the release document publishes the very version that is running:
/// the two texts agree once a `v` in front is dropped.
pub open spec fn same_version(current: Seq<char>, info: VersionInfoView) -> bool {
    strip_leading(current, 'v') == strip_leading(info.version, 'v')
}

/// Whether an outcome offers no update: it is an error, or says that none is
/// available and names no download.
pub open spec fn offers_nothing(outcome: Result<UpdateInfoView, UpdateError>) -> bool {
    match outcome {
        Ok(info) => !info.update_available && info.download_url is None,
        Err(_) => true,
    }
}

/// The view of an outcome.
pub open spec fn outcome_view(r: Result<UpdateInfo, UpdateError>) -> Result<
    UpdateInfoView,
    UpdateError,
> {
    match r {
        Ok(info) => Ok(info@),
        Err(e) => Err(e),
    }
}

/// What follows from `newer`, the answer to whether the published version is
/// greater than the running one, which is written `shown`.
pub fn decide_update(shown: String, info: VersionInfo, platform: &str, newer: bool) -> (r: Result<
    UpdateInfo,
    UpdateError,
>)
    ensures
        outcome_view(r) == update_decision(shown@, info@, platform@, newer),
{
    let download_url = if newer {
        if !info.downloads.contains_key(platform) {
            return Err(UpdateError::MissingDownload);
        }
        Some(get_download_url_from_info(&info, platform))
    } else {
        None
    };
    Ok(
        UpdateInfo {
            current_version: String::from_str("v").concat(shown.as_str()),
            latest_version: info.version,
            update_available: newer,
            download_url,
        },
    )
}

/// Checks the release document `info` against the running version `current`,
/// for the download named `platform`.
pub fn compare_release(current: &str, info: VersionInfo, platform: &str) -> (r: Result<
    UpdateInfo,
    UpdateError,
>)
    ensures
        outcome_view(r) == release_outcome(current@, info@, platform@),
        same_version(current@, info@) ==> offers_nothing(outcome_view(r)),
{
    let running = trim_start_matches(current, 'v');
    let shown = match displayed_version(running.as_str()) {
        Ok(shown) => shown,
        Err(_) => { return Err(UpdateError::InvalidCurrentVersion); },
    };
    let latest = trim_start_matches(info.version.as_str(), 'v');
    match newer_version(latest.as_str(), running.as_str()) {
        None => Err(UpdateError::InvalidLatestVersion),
        Some(newer) => decide_update(shown, info, platform, newer),
    }
}

/// Checks the release document `info` against the version of this program,
/// for the download of `target`.
pub fn check_for_updates(info: VersionInfo, target: Target) -> (r: Result<UpdateInfo, UpdateError>)
    ensures
        outcome_view(r) == release_outcome(VERSION@, info@, platform_identifier(target)),
        same_version(VERSION@, info@) ==> offers_nothing(outcome_view(r)),
{
    compare_release(get_current_version(), info, get_platform_identifier(target))
}

/// The version to offer the user after a check: the published one where the
/// check found an update, and none where it found none or failed.
pub fn update_offer<E>(outcome: Result<UpdateInfo, E>) -> (r: Option<String>)
    ensures
        r.deep_view() == match outcome {
            Ok(info) => if info.update_available {
                Some(info.latest_version@)
            } else {
                None
            },
            Err(_) => None,
        },
        (outcome matches Ok(info) ==> !info.update_available) ==> r is None,
{
    match outcome {
        Ok(info) => if info.update_available {
            Some(info.latest_version)
        } else {
            None
        },
        Err(_) => None,
    }
}

} // verus!
