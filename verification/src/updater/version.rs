//! Names of the assets a release publishes.
use vstd::prelude::*;
use crate::text::concat3;

verus! {

/// GitHub account that publishes the releases.
pub const DEFAULT_OWNER: &'static str = "TrulyNimz";

/// Repository that publishes the releases.
pub const DEFAULT_REPO: &'static str = "Rust-Fingerprint-Library";

/// `fingerprint-sdk-v{version}-win32-x64{suffix}`.
pub open spec fn asset_name(version: Seq<char>, suffix: Seq<char>) -> Seq<char> {
    "fingerprint-sdk-v"@ + version + "-win32-x64"@ + suffix
}

/// Name of the release archive for a version.
pub fn asset_zip_name(version: &str) -> (name: String)
    ensures
        name@ == asset_name(version@, ".zip"@),
{
    let name = concat3("fingerprint-sdk-v", version, "-win32-x64.zip");
    proof {
        reveal_strlit("-win32-x64.zip");
        reveal_strlit("-win32-x64");
        reveal_strlit(".zip");
        assert("-win32-x64.zip"@ =~= "-win32-x64"@ + ".zip"@);
        assert(name@ =~= asset_name(version@, ".zip"@));
    }
    name
}

/// Name of the checksum file published beside the archive.
pub fn asset_checksum_name(version: &str) -> (name: String)
    ensures
        name@ == asset_name(version@, ".sha256"@),
{
    let name = concat3("fingerprint-sdk-v", version, "-win32-x64.sha256");
    proof {
        reveal_strlit("-win32-x64.sha256");
        reveal_strlit("-win32-x64");
        reveal_strlit(".sha256");
        assert("-win32-x64.sha256"@ =~= "-win32-x64"@ + ".sha256"@);
        assert(name@ =~= asset_name(version@, ".sha256"@));
    }
    name
}

/// Name of the detached Ed25519 signature published beside the archive.
pub fn asset_signature_name(version: &str) -> (name: String)
    ensures
        name@ == asset_name(version@, ".sig"@),
{
    let name = concat3("fingerprint-sdk-v", version, "-win32-x64.sig");
    proof {
        reveal_strlit("-win32-x64.sig");
        reveal_strlit("-win32-x64");
        reveal_strlit(".sig");
        assert("-win32-x64.sig"@ =~= "-win32-x64"@ + ".sig"@);
        assert(name@ =~= asset_name(version@, ".sig"@));
    }
    name
}

} // verus!
