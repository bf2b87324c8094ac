//! What the SDK reports to JavaScript about a newer published release. The
//! request to GitHub is made by the program around the library.
use vstd::prelude::*;
use vstd::string::StringExecFns;
use crate::outside::{
    semver_accepts, semver_canonical, semver_check, semver_error_text, semver_greater,
    semver_newer, semver_render,
};
use crate::text::concat2;
use crate::updater::github::{strip_v, tag_version};

verus! {

/// The answer to "is there a newer release?".
#[derive(Debug, Clone)]
pub struct UpdateInfo {
    pub update_available: bool,
    pub current_version: String,
    pub latest_version: Option<String>,
    pub release_url: Option<String>,
}

/// Checks that the SDK's own version is a semantic version.
pub fn check_current_version(current: &str) -> (r: Result<(), String>)
    ensures
        r is Ok <==> semver_accepts(current@),
        r matches Err(m) ==> m@ == "Bad version: "@ + semver_error_text(current@),
{
    match semver_check(current) {
        Ok(()) => Ok(()),
        Err(e) => Err(concat2("Bad version: ", e.as_str())),
    }
}

/// The answer when the repository has published no release.
pub fn no_published_release(current: &str) -> (info: UpdateInfo)
    ensures
        !info.update_available,
        info.current_version@ == current@,
        info.latest_version is None,
        info.release_url is None,
{
    UpdateInfo {
        update_available: false,
        current_version: String::from_str(current),
        latest_version: None,
        release_url: None,
    }
}

/// The answer for the latest release, tagged `tag_name` (a leading `v` is
/// dropped) and shown at `html_url`. An update is available exactly when the
/// release's version is greater than `current`, so never for the version
/// already installed.
pub fn update_info_for_release(current: &str, tag_name: &str, html_url: String) -> (r: Result<
    UpdateInfo,
    String,
>)
    ensures
        ({
            let v = strip_v(tag_name@);
            if !semver_accepts(current@) {
                r matches Err(m) && m@ == "Bad version: "@ + semver_error_text(current@)
            } else if !semver_accepts(v) {
                r matches Err(m) && m@ == "Bad release version: "@ + semver_error_text(v)
            } else {
                &&& r matches Ok(info)
                &&& info.update_available == semver_newer(v, current@)
                &&& info.current_version@ == current@
                &&& info.latest_version matches Some(l)
                &&& l@ == semver_canonical(v)
                &&& info.release_url == Some(html_url)
            }
        }),
        strip_v(tag_name@) == current@ ==> !(r matches Ok(info) && info.update_available),
{
    check_current_version(current)?;
    let v = tag_version(tag_name);
    if let Err(e) = semver_check(v) {
        return Err(concat2("Bad release version: ", e.as_str()));
    }
    let newer = semver_greater(v, current);
    Ok(UpdateInfo {
        update_available: newer,
        current_version: String::from_str(current),
        latest_version: Some(semver_render(v)),
        release_url: Some(html_url),
    })
}

} // verus!
