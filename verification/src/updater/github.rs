//! Release metadata and the choice of the release an update installs.
use vstd::prelude::*;
use vstd::string::StringExecFns;
use crate::outside::{
    semver_accepts, semver_canonical, semver_check, semver_error_text, semver_greater,
    semver_newer, semver_render,
};
use crate::text::str_eq;
use crate::updater::version::{asset_checksum_name, asset_name, asset_signature_name, asset_zip_name};

verus! {

/// Everything that can stop an update. Errors raised by the HTTP client and
/// the file system arrive as their text.
#[derive(Debug, Clone, PartialEq, Eq)]
pub enum UpdateError {
    Http(String),
    InvalidVersion(String),
    MissingAsset(String),
    Download(String),
    ChecksumMismatch { expected: String, actual: String },
    ZipError(String),
    Io(String),
    Manifest(String),
    SignatureInvalid(String),
}

/// The text an error displays as.
pub open spec fn update_error_text(e: UpdateError) -> Seq<char> {
    match e {
        UpdateError::Http(m) => "HTTP request failed: "@ + m@,
        UpdateError::InvalidVersion(m) => "Invalid version in release tag: "@ + m@,
        UpdateError::MissingAsset(m) => "Release is missing expected asset: "@ + m@,
        UpdateError::Download(m) => "Download failed: "@ + m@,
        UpdateError::ChecksumMismatch { expected, actual } => "Checksum mismatch: expected "@
            + expected@ + ", got "@ + actual@,
        UpdateError::ZipError(m) => "Zip extraction failed: "@ + m@,
        UpdateError::Io(m) => "File operation failed: "@ + m@,
        UpdateError::Manifest(m) => "Manifest error: "@ + m@,
        UpdateError::SignatureInvalid(m) => "Signature verification failed: "@ + m@,
    }
}

impl UpdateError {
    /// The text the error displays as (what `to_string` gives).
    pub fn message(&self) -> (text: String)
        ensures
            text@ == update_error_text(*self),
    {
        let (head, detail): (&str, &str) = match self {
            UpdateError::Http(m) => ("HTTP request failed: ", m.as_str()),
            UpdateError::InvalidVersion(m) => ("Invalid version in release tag: ", m.as_str()),
            UpdateError::MissingAsset(m) => ("Release is missing expected asset: ", m.as_str()),
            UpdateError::Download(m) => ("Download failed: ", m.as_str()),
            UpdateError::ChecksumMismatch { expected, actual } => {
                let mut s = String::from_str("Checksum mismatch: expected ");
                s.append(expected.as_str());
                s.append(", got ");
                s.append(actual.as_str());
                return s;
            },
            UpdateError::ZipError(m) => ("Zip extraction failed: ", m.as_str()),
            UpdateError::Io(m) => ("File operation failed: ", m.as_str()),
            UpdateError::Manifest(m) => ("Manifest error: ", m.as_str()),
            UpdateError::SignatureInvalid(m) => ("Signature verification failed: ", m.as_str()),
        };
        let mut s = String::from_str(head);
        s.append(detail);
        s
    }
}

/// One downloadable file of a release.
#[derive(Debug, Clone)]
pub struct GitHubAsset {
    pub name: String,
    pub browser_download_url: String,
    pub size: u64,
}

/// A release as the GitHub API describes it.
#[derive(Debug, Clone)]
pub struct GitHubRelease {
    pub tag_name: String,
    pub prerelease: bool,
    pub assets: Vec<GitHubAsset>,
    pub html_url: String,
}

/// The release an update would install. `version` is the release's version
/// as `semver` renders it; the checksum file and the detached signature are
/// optional assets of the release.
#[derive(Debug, Clone)]
pub struct UpdateInfo {
    pub version: String,
    pub zip_url: String,
    pub checksum_url: Option<String>,
    pub signature_url: Option<String>,
    pub signature_name: String,
    pub release_url: String,
}

/// A tag with one leading `v` removed.
pub open spec fn strip_v(tag: Seq<char>) -> Seq<char> {
    if tag.len() > 0 && tag[0] == 'v' {
        tag.subrange(1, tag.len() as int)
    } else {
        tag
    }
}

/// The version text of a release tag (`v1.2.3` gives `1.2.3`).
pub fn tag_version(tag: &str) -> (v: &str)
    ensures
        v@ == strip_v(tag@),
{
    let n = tag.unicode_len();
    if n > 0 && tag.get_char(0) == 'v' {
        tag.substring_char(1, n)
    } else {
        tag.substring_char(0, n)
    }
}

/// `i` is the first position of an asset called `name`.
pub open spec fn is_first_named(assets: Seq<GitHubAsset>, name: Seq<char>, i: int) -> bool {
    &&& 0 <= i < assets.len()
    &&& assets[i].name@ == name
    &&& forall|j: int| 0 <= j < i ==> assets[j].name@ != name
}

/// Some asset is called `name`.
pub open spec fn has_asset(assets: Seq<GitHubAsset>, name: Seq<char>) -> bool {
    exists|i: int| 0 <= i < assets.len() && #[trigger] assets[i].name@ == name
}

/// The first asset called `name`, if any.
pub fn find_asset(assets: &Vec<GitHubAsset>, name: &str) -> (r: Option<usize>)
    ensures
        r matches Some(i) ==> is_first_named(assets@, name@, i as int),
        r is None <==> !has_asset(assets@, name@),
{
    let mut i: usize = 0;
    while i < assets.len()
        invariant
            i <= assets@.len(),
            forall|j: int| 0 <= j < i ==> assets@[j].name@ != name@,
        decreases assets.len() - i,
    {
        if str_eq(assets[i].name.as_str(), name) {
            return Some(i);
        }
        i = i + 1;
    }
    None
}

/// `url` is the download address of the first asset called `name`, or
/// `None` when there is none.
pub open spec fn asset_url_is(assets: Seq<GitHubAsset>, name: Seq<char>, url: Option<String>) -> bool {
    match url {
        Some(u) => exists|i: int| #[trigger]
            is_first_named(assets, name, i) && u@ == assets[i].browser_download_url@,
        None => !has_asset(assets, name),
    }
}

/// `info` describes `release`: its rendered version, the addresses of the
/// archive, of the checksum file and of the signature, the signature's asset
/// name, and the release page.
pub open spec fn describes(release: GitHubRelease, info: UpdateInfo) -> bool {
    let v = strip_v(release.tag_name@);
    &&& info.version@ == semver_canonical(v)
    &&& asset_url_is(release.assets@, asset_name(v, ".zip"@), Some(info.zip_url))
    &&& asset_url_is(release.assets@, asset_name(v, ".sha256"@), info.checksum_url)
    &&& asset_url_is(release.assets@, asset_name(v, ".sig"@), info.signature_url)
    &&& info.signature_name@ == asset_name(v, ".sig"@)
    &&& info.release_url@ == release.html_url@
}

/// What describing `release` gives once its version has been accepted: the
/// archive must be there, the checksum file may be missing.
pub open spec fn release_outcome(release: GitHubRelease, r: Result<UpdateInfo, UpdateError>) -> bool {
    let v = strip_v(release.tag_name@);
    if !has_asset(release.assets@, asset_name(v, ".zip"@)) {
        r matches Err(UpdateError::MissingAsset(m)) && m@ == asset_name(v, ".zip"@)
    } else {
        r matches Ok(info) && describes(release, info)
    }
}

/// `release_outcome` for a result that wraps the description in `Some`.
pub open spec fn offer_outcome(release: GitHubRelease, r: Result<Option<UpdateInfo>, UpdateError>) -> bool {
    let v = strip_v(release.tag_name@);
    if !has_asset(release.assets@, asset_name(v, ".zip"@)) {
        r matches Err(UpdateError::MissingAsset(m)) && m@ == asset_name(v, ".zip"@)
    } else {
        r matches Ok(Some(info)) && describes(release, info)
    }
}

fn describe_accepted(release: &GitHubRelease, v: &str) -> (r: Result<UpdateInfo, UpdateError>)
    requires
        v@ == strip_v(release.tag_name@),
        semver_accepts(v@),
    ensures
        release_outcome(*release, r),
{
    let zip_name = asset_zip_name(v);
    let checksum_name = asset_checksum_name(v);
    let signature_name = asset_signature_name(v);
    let zip_at = find_asset(&release.assets, zip_name.as_str());
    match zip_at {
        None => Err(UpdateError::MissingAsset(zip_name)),
        Some(i) => {
            let checksum_at = find_asset(&release.assets, checksum_name.as_str());
            let signature_at = find_asset(&release.assets, signature_name.as_str());
            let checksum_url = match checksum_at {
                Some(j) => Some(release.assets[j].browser_download_url.clone()),
                None => None,
            };
            let signature_url = match signature_at {
                Some(j) => Some(release.assets[j].browser_download_url.clone()),
                None => None,
            };
            proof {
                assert(is_first_named(release.assets@, asset_name(v@, ".zip"@), i as int));
                if let Some(j) = checksum_at {
                    assert(is_first_named(release.assets@, asset_name(v@, ".sha256"@), j as int));
                }
                if let Some(j) = signature_at {
                    assert(is_first_named(release.assets@, asset_name(v@, ".sig"@), j as int));
                }
            }
            Ok(
                UpdateInfo {
                    version: semver_render(v),
                    zip_url: release.assets[i].browser_download_url.clone(),
                    checksum_url,
                    signature_url,
                    signature_name,
                    release_url: release.html_url.clone(),
                },
            )
        },
    }
}

/// Describes a release whatever its version: the tag (less a leading `v`)
/// must be a semantic version, and the release must carry the archive.
pub fn update_info_from_release(release: &GitHubRelease) -> (r: Result<UpdateInfo, UpdateError>)
    ensures
        ({
            let v = strip_v(release.tag_name@);
            if !semver_accepts(v) {
                r matches Err(UpdateError::InvalidVersion(m)) && m@ == semver_error_text(v)
            } else {
                release_outcome(*release, r)
            }
        }),
{
    let v = tag_version(release.tag_name.as_str());
    match semver_check(v) {
        Err(e) => Err(UpdateError::InvalidVersion(e)),
        Ok(()) => describe_accepted(release, v),
    }
}

/// The update a release offers over the installed version `current`: none
/// when there is no release or its version is not greater than `current`.
/// A `current` that is not a semantic version is reported like a bad tag.
pub fn check_release(release: &Option<GitHubRelease>, current: &str) -> (r: Result<
    Option<UpdateInfo>,
    UpdateError,
>)
    ensures
        release is None ==> r matches Ok(None),
        release matches Some(rel) ==> ({
            let v = strip_v(rel.tag_name@);
            if !semver_accepts(v) {
                r matches Err(UpdateError::InvalidVersion(m)) && m@ == semver_error_text(v)
            } else if !semver_accepts(current@) {
                r matches Err(UpdateError::InvalidVersion(m)) && m@ == semver_error_text(current@)
            } else if !semver_newer(v, current@) {
                r matches Ok(None)
            } else {
                offer_outcome(*rel, r)
            }
        }),
        release matches Some(rel) && strip_v(rel.tag_name@) == current@ ==> !(r matches Ok(Some(_))),
{
    match release {
        None => Ok(None),
        Some(rel) => {
            let v = tag_version(rel.tag_name.as_str());
            if let Err(e) = semver_check(v) {
                return Err(UpdateError::InvalidVersion(e));
            }
            if let Err(e) = semver_check(current) {
                return Err(UpdateError::InvalidVersion(e));
            }
            if !semver_greater(v, current) {
                return Ok(None);
            }
            match describe_accepted(rel, v) {
                Ok(info) => Ok(Some(info)),
                Err(e) => Err(e),
            }
        },
    }
}

/// The update to install. With `force` the latest release is taken whatever
/// its version; without, only one newer than `current`.
pub fn select_update(release: &Option<GitHubRelease>, current: &str, force: bool) -> (r: Result<
    UpdateInfo,
    UpdateError,
>)
    ensures
        force && release is None ==> (r matches Err(UpdateError::Download(m)) && m@
            == "No releases found"@),
        force ==> (release matches Some(rel) ==> ({
            let v = strip_v(rel.tag_name@);
            if !semver_accepts(v) {
                r matches Err(UpdateError::InvalidVersion(m)) && m@ == semver_error_text(v)
            } else {
                release_outcome(*rel, r)
            }
        })),
        !force ==> ({
            let no_update = r matches Err(UpdateError::Download(m)) && m@ == "Already up to date"@;
            match release {
                None => no_update,
                Some(rel) => {
                    let v = strip_v(rel.tag_name@);
                    if !semver_accepts(v) {
                        r matches Err(UpdateError::InvalidVersion(m)) && m@ == semver_error_text(v)
                    } else if !semver_accepts(current@) {
                        r matches Err(UpdateError::InvalidVersion(m)) && m@ == semver_error_text(
                            current@,
                        )
                    } else if !semver_newer(v, current@) {
                        no_update
                    } else {
                        release_outcome(*rel, r)
                    }
                },
            }
        }),
{
    if force {
        match release {
            None => Err(UpdateError::Download(String::from_str("No releases found"))),
            Some(rel) => update_info_from_release(rel),
        }
    } else {
        match check_release(release, current) {
            Ok(Some(info)) => Ok(info),
            Ok(None) => Err(UpdateError::Download(String::from_str("Already up to date"))),
            Err(e) => Err(e),
        }
    }
}

/// `owner/repo` read from a repository argument: the text before the first
/// `/` and the rest after it; none when there is no `/`.
pub open spec fn repo_parts(s: Seq<char>) -> Option<(Seq<char>, Seq<char>)> {
    if exists|i: int| 0 <= i < s.len() && s[i] == '/' {
        let i = choose|i: int| 0 <= i < s.len() && s[i] == '/' && forall|j: int| 0 <= j < i ==> s[j] != '/';
        Some((s.subrange(0, i), s.subrange(i + 1, s.len() as int)))
    } else {
        None
    }
}

/// Splits a repository argument `owner/repo` at its first `/`.
pub fn parse_repo(s: &str) -> (r: Option<(String, String)>)
    ensures
        match repo_parts(s@) {
            Some((owner, repo)) => r matches Some((o, p)) && o@ == owner && p@ == repo,
            None => r is None,
        },
{
    let n = s.unicode_len();
    let mut i: usize = 0;
    while i < n
        invariant
            n == s@.len(),
            i <= n,
            forall|j: int| 0 <= j < i ==> s@[j] != '/',
        decreases n - i,
    {
        if s.get_char(i) == '/' {
            let ghost k = choose|k: int| 0 <= k < s@.len() && s@[k] == '/' && forall|j: int| 0 <= j < k ==> s@[j] != '/';
            proof {
                assert(0 <= i < s@.len() && s@[i as int] == '/' && forall|j: int| 0 <= j < i ==> s@[j] != '/');
                if k < i {
                    assert(s@[k] != '/');
                }
                if i < k {
                    assert(s@[i as int] != '/');
                }
            }
            let owner = String::from_str(s.substring_char(0, i));
            let repo = String::from_str(s.substring_char(i + 1, n));
            return Some((owner, repo));
        }
        i = i + 1;
    }
    None
}

} // verus!
