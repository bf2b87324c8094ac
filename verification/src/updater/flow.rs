//! The order of an update's steps: which release, then the archive's
//! download, its signature, its published checksum, the extraction, the
//! manifest, the installation and the record. The program around the library
//! performs each action and hands back what came of it; the step function
//! decides what comes next, and the archive is extracted only once it is
//! authenticated and its digest confirmed.
use vstd::prelude::*;
use vstd::string::StringExecFns;
use crate::outside::{semver_accepts, semver_newer, unicode_lowercase};
use crate::updater::assets::{checksum_from_text, first_word, signature_result, verify_checksum, verify_signature};
use crate::updater::github::{
    describes, has_asset, select_update, strip_v, GitHubRelease, UpdateError, UpdateInfo,
};
use crate::updater::version::asset_name;
use crate::updater::release::{
    digest_differs, install_file_list, installable, signature_check, verify_manifest, FileEntry,
    ReleaseManifest, SignatureCheck,
};

verus! {

/// Where an update stands: the outcome it waits for next.
#[derive(Debug, Clone, Copy, PartialEq, Eq, Structural)]
pub enum Stage {
    /// The latest release.
    FetchingRelease,
    /// The archive's download and the digest of what was written.
    Downloading,
    /// The detached signature, with the archive's bytes.
    FetchingSignature,
    /// The published checksum file.
    FetchingChecksum,
    /// The archive's extraction.
    Extracting,
    /// The manifest and the digests of the files it lists.
    ReadingManifest,
    /// The installation of the files.
    Installing,
    /// The record of the update.
    Recording,
    /// The update is installed and recorded.
    Finished,
    /// The update stopped on an error.
    Failed,
}

/// What the program around the library reports of the last action.
pub enum UpdateEvent {
    /// The latest release, or none when none is published.
    ReleaseFetched(Option<GitHubRelease>),
    /// The archive was written; the SHA-256 of its bytes, in lower-case hex.
    ArchiveDownloaded { sha256_hex: String },
    /// The downloaded archive's bytes and the detached signature.
    SignatureFetched { archive: Vec<u8>, signature: Vec<u8> },
    /// The text of the published checksum file.
    ChecksumFetched { text: String },
    /// The names of the files extracted from the archive, in order.
    Extracted { files: Vec<String> },
    /// The manifest with, for each file it lists in order, the digest of the
    /// extracted file (none when the archive holds no such file); or none
    /// when the archive holds no manifest.
    ManifestRead(Option<(ReleaseManifest, Vec<Option<String>>)>),
    /// The files were installed.
    Installed,
    /// The update's record was written.
    RecordWritten,
    /// The action failed.
    Failed(UpdateError),
}

/// What the program around the library does next.
#[derive(Debug, PartialEq, Eq)]
pub enum UpdateAction {
    /// Fetch the latest release.
    FetchRelease,
    /// Download the archive from `url`.
    DownloadArchive { url: String },
    /// Download the detached signature from `url`, and read the archive.
    FetchSignature { url: String },
    /// Download the checksum file from `url`.
    FetchChecksum { url: String },
    /// Extract the archive.
    Extract,
    /// Read the manifest, if the archive holds one, and digest the files it
    /// lists.
    ReadManifest,
    /// Install these files, in this order.
    Install { files: Vec<String> },
    /// Record that `version` was installed.
    WriteRecord { version: String },
    /// The update to `version` is done.
    Finish { version: String },
    /// Stop with this error.
    Fail(UpdateError),
}

/// A manifest read with the digests found for its files: none when the
/// archive held no manifest.
pub type ManifestCheck = Option<(Seq<(String, FileEntry)>, Seq<Option<String>>)>;

/// The state of an update between its steps.
pub struct UpdatePhase {
    stage: Stage,
    current: String,
    force: bool,
    pubkey_hex: Option<String>,
    allow_unsigned: bool,
    info: Option<UpdateInfo>,
    signature: Option<SignatureCheck>,
    actual_hash: String,
    extracted: Vec<String>,
    signed: Ghost<Option<(Seq<u8>, Seq<u8>)>>,
    published: Ghost<Option<Seq<char>>>,
    manifest_seen: Ghost<Option<ManifestCheck>>,
}

/// A checksum file was read whose digest (its first word, lower-cased) is
/// `digest`.
pub open spec fn published_digest_is(published: Option<Seq<char>>, digest: Seq<char>) -> bool {
    match published {
        Some(text) => first_word(text).len() > 0 && unicode_lowercase(first_word(text)) == digest,
        None => false,
    }
}

/// The signature handed back does not verify the archive handed back with
/// the key built in.
pub open spec fn signature_refused(phase: UpdatePhase, event: UpdateEvent) -> bool {
    match event {
        UpdateEvent::SignatureFetched { archive, signature } => match phase.key() {
            Some(k) => signature_result(archive@, signature@, k) is Err,
            None => false,
        },
        _ => false,
    }
}

/// The chosen release publishes its signature at `url`.
pub open spec fn signature_url_is(info: Option<UpdateInfo>, url: Seq<char>) -> bool {
    match info {
        Some(i) => match i.signature_url {
            Some(u) => u@ == url,
            None => false,
        },
        None => false,
    }
}

/// The release an update is offered, as `select_update` chooses it: its tag
/// (less a leading `v`) is a semantic version, newer than `current` unless
/// the update is forced, and the release carries the archive.
pub open spec fn release_offered(release: Option<GitHubRelease>, current: Seq<char>, force: bool) -> bool {
    match release {
        None => false,
        Some(rel) => {
            let v = strip_v(rel.tag_name@);
            &&& semver_accepts(v)
            &&& (force || (semver_accepts(current) && semver_newer(v, current)))
            &&& has_asset(rel.assets@, asset_name(v, ".zip"@))
        },
    }
}

/// A forced update re-installs the fetched release whatever its version:
/// its tag (less a leading `v`) is a semantic version, it carries the
/// archive, and it can be authenticated.
pub open spec fn reinstallable(phase: UpdatePhase, event: UpdateEvent) -> bool {
    match event {
        UpdateEvent::ReleaseFetched(Some(rel)) => {
            let v = strip_v(rel.tag_name@);
            &&& semver_accepts(v)
            &&& has_asset(rel.assets@, asset_name(v, ".zip"@))
            &&& can_authenticate(phase.key(), phase.unsigned_allowed(), rel)
        },
        _ => false,
    }
}

/// The fetched release is newer than the installed version.
pub open spec fn newer_than_installed(phase: UpdatePhase, event: UpdateEvent) -> bool {
    match event {
        UpdateEvent::ReleaseFetched(Some(rel)) => semver_accepts(phase.installed_version())
            && semver_newer(strip_v(rel.tag_name@), phase.installed_version()),
        _ => false,
    }
}

/// A forced update is offered the latest release whatever its version
/// against the installed one: when its tag is a semantic version and it
/// carries the archive. Without force, only a newer release is offered.
pub proof fn law_forced_release_ignores_version(release: GitHubRelease, current: Seq<char>, other: Seq<char>)
    ensures
        release_offered(Some(release), current, true) == (semver_accepts(strip_v(release.tag_name@))
            && has_asset(release.assets@, asset_name(strip_v(release.tag_name@), ".zip"@))),
        release_offered(Some(release), current, true) == release_offered(Some(release), other, true),
        release_offered(Some(release), current, false) ==> semver_accepts(current) && semver_newer(
            strip_v(release.tag_name@),
            current,
        ),
        release_offered(Some(release), current, false) ==> release_offered(Some(release), current, true),
        !release_offered(None, current, true),
{
}

/// The name of a release's detached signature asset.
pub open spec fn signature_asset(rel: GitHubRelease) -> Seq<char> {
    asset_name(strip_v(rel.tag_name@), ".sig"@)
}

/// The update can be authenticated: with a key built in, the release
/// carries its signature; without one, unsigned updates were allowed.
pub open spec fn can_authenticate(key: Option<Seq<char>>, allow_unsigned: bool, rel: GitHubRelease) -> bool {
    match key {
        Some(_) => has_asset(rel.assets@, signature_asset(rel)),
        None => allow_unsigned,
    }
}

/// After the release step the update goes on: the release is offered and can
/// be authenticated.
pub open spec fn release_goes_on(phase: UpdatePhase, event: UpdateEvent) -> bool {
    match event {
        UpdateEvent::ReleaseFetched(release) => release_offered(
            release,
            phase.installed_version(),
            phase.forced(),
        ) && match release {
            Some(rel) => can_authenticate(phase.key(), phase.unsigned_allowed(), rel),
            None => false,
        },
        _ => false,
    }
}

/// The release offered has no signature though a key is built in; `name` is
/// the asset missing.
pub open spec fn signature_missing(phase: UpdatePhase, event: UpdateEvent, name: Seq<char>) -> bool {
    match event {
        UpdateEvent::ReleaseFetched(release) => {
            &&& release_offered(release, phase.installed_version(), phase.forced())
            &&& phase.key() is Some
            &&& release matches Some(rel) && !has_asset(rel.assets@, signature_asset(rel)) && name
                == signature_asset(rel)
        },
        _ => false,
    }
}

/// `info` describes the release fetched.
pub open spec fn describes_fetched(event: UpdateEvent, info: UpdateInfo) -> bool {
    match event {
        UpdateEvent::ReleaseFetched(Some(rel)) => describes(rel, info),
        _ => false,
    }
}

/// The step once the archive is authentic: its published checksum when the
/// release has one, else the extraction.
pub open spec fn checksum_or_extract(chosen: Option<UpdateInfo>, action: UpdateAction) -> bool {
    match chosen {
        Some(info) => match info.checksum_url {
            Some(u) => action matches UpdateAction::FetchChecksum { url } && url@ == u@,
            None => action is Extract,
        },
        None => false,
    }
}

/// The step after the download: the signature when a key is built in, else
/// the checksum or the extraction.
pub open spec fn after_download(phase: UpdatePhase, action: UpdateAction) -> bool {
    match phase.key() {
        Some(_) => action matches UpdateAction::FetchSignature { url } && signature_url_is(
            phase.chosen(),
            url@,
        ),
        None => checksum_or_extract(phase.chosen(), action),
    }
}

/// The step after the checksum file is read: the extraction exactly when the
/// digest it publishes is the archive's.
pub open spec fn after_checksum(digest: Seq<char>, text: Seq<char>, action: UpdateAction) -> bool {
    let w = first_word(text);
    if w.len() == 0 {
        action matches UpdateAction::Fail(UpdateError::Download(m)) && m@ == "Empty checksum file"@
    } else if unicode_lowercase(w) == digest {
        action is Extract
    } else {
        action matches UpdateAction::Fail(UpdateError::ChecksumMismatch { expected, actual })
            && expected@ == unicode_lowercase(w) && actual@ == digest
    }
}

/// What the manifest read confirms: no manifest, or digests for each of its
/// files, none of them differing from the recorded one.
pub open spec fn manifest_accepted(read: Option<(ReleaseManifest, Vec<Option<String>>)>) -> bool {
    match read {
        None => true,
        Some((manifest, hashes)) => hashes@.len() == manifest.files@.len() && forall|i: int|
            0 <= i < hashes@.len() ==> !digest_differs(manifest.files@, hashes@, i),
    }
}

/// The step after the manifest is read: the installation of the extracted
/// files but the manifest, exactly when the manifest is confirmed.
pub open spec fn after_manifest(event: UpdateEvent, extracted: Seq<String>, action: UpdateAction) -> bool {
    match event {
        UpdateEvent::ManifestRead(read) => if manifest_accepted(read) {
            action matches UpdateAction::Install { files } && files@.map_values(|n: String| n@)
                == installable(extracted)
        } else {
            action is Fail
        },
        _ => false,
    }
}

/// The error for an outcome that does not answer the action asked for.
pub open spec fn out_of_order_text() -> Seq<char> {
    "update step out of order"@
}

/// The error for digests that do not match the manifest's files one for one.
pub open spec fn digest_count_text() -> Seq<char> {
    "file digests do not match the manifest's files"@
}

impl UpdatePhase {
    /// Where the update stands.
    pub closed spec fn current_stage(self) -> Stage {
        self.stage
    }

    /// The release being installed, once it is chosen.
    pub closed spec fn chosen(self) -> Option<UpdateInfo> {
        self.info
    }

    /// The version installed before the update.
    pub closed spec fn installed_version(self) -> Seq<char> {
        self.current@
    }

    /// Whether the latest release is installed whatever its version.
    pub closed spec fn forced(self) -> bool {
        self.force
    }

    /// The SHA-256 of the downloaded archive, in hex, once it is known.
    pub closed spec fn archive_digest(self) -> Seq<char> {
        self.actual_hash@
    }

    /// The signing key built in, if any.
    pub closed spec fn key(self) -> Option<Seq<char>> {
        match self.pubkey_hex {
            Some(k) => Some(k@),
            None => None,
        }
    }

    /// Whether unsigned updates were allowed.
    pub closed spec fn unsigned_allowed(self) -> bool {
        self.allow_unsigned
    }

    /// The names of the files extracted from the archive.
    pub closed spec fn extracted_files(self) -> Seq<String> {
        self.extracted@
    }

    /// The archive is authentic: the key built in verified a signature over
    /// the archive's bytes, or there is no key and unsigned updates were
    /// allowed.
    pub closed spec fn archive_authentic(self) -> bool {
        match self.signature {
            Some(SignatureCheck::Unsigned) => self.pubkey_hex is None && self.allow_unsigned,
            Some(SignatureCheck::Verify { pubkey_hex, .. }) => {
                &&& (self.pubkey_hex matches Some(k) && k@ == pubkey_hex@)
                &&& (self.signed@ matches Some((archive, signature)) && signature_result(
                    archive,
                    signature,
                    pubkey_hex@,
                ) is Ok)
            },
            None => false,
        }
    }

    /// The archive bytes and the signature verified with the key built in,
    /// once they are.
    pub closed spec fn verified_archive(self) -> Option<(Seq<u8>, Seq<u8>)> {
        self.signed@
    }

    /// The archive's digest is the one its release publishes, or the release
    /// publishes none.
    pub closed spec fn digest_confirmed(self) -> bool {
        match self.info {
            Some(info) => info.checksum_url is None || published_digest_is(
                self.published@,
                self.actual_hash@,
            ),
            None => false,
        }
    }

    /// Every file the manifest lists that the archive holds has the digest
    /// it records, or the archive holds no manifest.
    pub closed spec fn manifest_confirmed(self) -> bool {
        match self.manifest_seen@ {
            Some(None) => true,
            Some(Some((files, hashes))) => hashes.len() == files.len() && forall|i: int|
                0 <= i < hashes.len() ==> !digest_differs(files, hashes, i),
            None => false,
        }
    }

    #[verifier::type_invariant]
    spec fn steps_kept_in_order(self) -> bool {
        &&& self.stage == Stage::Extracting || self.stage == Stage::ReadingManifest || self.stage
            == Stage::Installing || self.stage == Stage::Recording || self.stage == Stage::Finished
            ==> self.archive_authentic() && self.digest_confirmed()
        &&& self.stage == Stage::FetchingChecksum ==> self.archive_authentic()
        &&& self.stage == Stage::Installing || self.stage == Stage::Recording || self.stage
            == Stage::Finished ==> self.manifest_confirmed()
        &&& self.stage != Stage::FetchingRelease && self.stage != Stage::Failed ==> self.info is Some
            && self.signature is Some
        &&& self.stage == Stage::FetchingSignature ==> (self.signature matches Some(
            SignatureCheck::Verify { .. },
        ))
        &&& (self.signature matches Some(SignatureCheck::Unsigned) ==> self.pubkey_hex is None
            && self.allow_unsigned)
        &&& (self.signature matches Some(SignatureCheck::Verify { pubkey_hex: k, .. })
            ==> self.pubkey_hex matches Some(p) && p@ == k@)
        &&& (self.signature matches Some(SignatureCheck::Verify { url, .. }) ==> signature_url_is(
            self.info,
            url@,
        ))
    }

    /// The release being installed, once it is chosen.
    pub fn release(&self) -> (r: &Option<UpdateInfo>)
        ensures
            *r == self.chosen(),
    {
        &self.info
    }

    /// Where the update stands.
    pub fn stage(&self) -> (s: Stage)
        ensures
            s == self.current_stage(),
    {
        self.stage
    }
}

fn copy_text(s: &String) -> (r: String)
    ensures
        r@ == s@,
{
    String::from_str(s.as_str())
}

fn failed(e: UpdateError) -> (r: (UpdatePhase, UpdateAction))
    ensures
        r.0.current_stage() == Stage::Failed,
        r.1 == UpdateAction::Fail(e),
{
    (
        UpdatePhase {
            stage: Stage::Failed,
            current: String::new(),
            force: false,
            pubkey_hex: None,
            allow_unsigned: false,
            info: None,
            signature: None,
            actual_hash: String::new(),
            extracted: Vec::new(),
            signed: Ghost(None),
            published: Ghost(None),
            manifest_seen: Ghost(None),
        },
        UpdateAction::Fail(e),
    )
}

fn out_of_order() -> (r: (UpdatePhase, UpdateAction))
    ensures
        r.0.current_stage() == Stage::Failed,
        r.1 matches UpdateAction::Fail(UpdateError::Download(m)) && m@ == out_of_order_text(),
{
    failed(UpdateError::Download(String::from_str("update step out of order")))
}

/// The first step of an update from `current`: fetch the latest release.
/// With `force` that release is installed whatever its version. The archive
/// is verified with `pubkey_hex` when a key is built in; without one the
/// update is refused unless `allow_unsigned`.
pub fn start_update(current: String, force: bool, pubkey_hex: Option<String>, allow_unsigned: bool) -> (r: (
    UpdatePhase,
    UpdateAction,
))
    ensures
        r.0.current_stage() == Stage::FetchingRelease,
        r.1 == UpdateAction::FetchRelease,
        r.0.key() == (match pubkey_hex {
            Some(k) => Some(k@),
            None => None::<Seq<char>>,
        }),
        r.0.unsigned_allowed() == allow_unsigned,
        r.0.installed_version() == current@,
        r.0.forced() == force,
{
    (
        UpdatePhase {
            stage: Stage::FetchingRelease,
            current,
            force,
            pubkey_hex,
            allow_unsigned,
            info: None,
            signature: None,
            actual_hash: String::new(),
            extracted: Vec::new(),
            signed: Ghost(None),
            published: Ghost(None),
            manifest_seen: Ghost(None),
        },
        UpdateAction::FetchRelease,
    )
}

/// The step after the release's archive is downloaded and authenticated:
/// its published checksum when the release has one, else the extraction.
fn after_authentication(phase: UpdatePhase) -> (r: (UpdatePhase, UpdateAction))
    requires
        phase.archive_authentic(),
        phase.chosen() is Some,
        phase.current_stage() == Stage::Downloading || phase.current_stage()
            == Stage::FetchingSignature,
    ensures
        r.0.archive_authentic(),
        r.0.chosen() == phase.chosen(),
        r.0.key() == phase.key(),
        r.0.unsigned_allowed() == phase.unsigned_allowed(),
        r.0.installed_version() == phase.installed_version(),
        r.0.forced() == phase.forced(),
        r.0.archive_digest() == phase.archive_digest(),
        checksum_or_extract(phase.chosen(), r.1),
        r.0.current_stage() != Stage::Failed,
        phase.chosen()->0.checksum_url matches Some(u) ==> (r.1 matches UpdateAction::FetchChecksum {
            url,
        } && url@ == u@ && r.0.current_stage() == Stage::FetchingChecksum),
        phase.chosen()->0.checksum_url is None ==> r.1 is Extract && r.0.current_stage()
            == Stage::Extracting && r.0.digest_confirmed(),
{
    proof {
        use_type_invariant(&phase);
    }
    let url = match &phase.info {
        Some(info) => match &info.checksum_url {
            Some(u) => Some(copy_text(u)),
            None => None,
        },
        None => None,
    };
    match url {
        Some(url) => {
            let next = UpdatePhase { stage: Stage::FetchingChecksum, ..phase };
            (next, UpdateAction::FetchChecksum { url })
        },
        None => {
            let next = UpdatePhase { stage: Stage::Extracting, ..phase };
            (next, UpdateAction::Extract)
        },
    }
}

/// Decides the next step of an update from where it stands and what came of
/// the last action. A failed action stops the update with its error, and so
/// does an outcome that does not answer the action asked for. The archive is
/// extracted only once it is authentic (a signature verified with the key
/// built in, or no key and unsigned updates allowed) and its digest is the
/// one the release publishes; the files are installed only once the
/// manifest's digests are confirmed.
pub fn next_update_step(phase: UpdatePhase, event: UpdateEvent) -> (r: (UpdatePhase, UpdateAction))
    ensures
        r.1 is Extract ==> r.0.current_stage() == Stage::Extracting && r.0.archive_authentic()
            && r.0.digest_confirmed(),
        r.1 matches UpdateAction::Install { files } ==> r.0.current_stage() == Stage::Installing
            && r.0.archive_authentic() && r.0.digest_confirmed() && r.0.manifest_confirmed()
            && files@.map_values(|n: String| n@) == installable(r.0.extracted_files()),
        r.1 matches UpdateAction::Fail(_) <==> r.0.current_stage() == Stage::Failed,
        event matches UpdateEvent::Failed(e) ==> r.1 == UpdateAction::Fail(e),
        phase.current_stage() == Stage::FetchingRelease && phase.key() is None
            && !phase.unsigned_allowed() ==> r.1 is Fail,
        r.0.current_stage() != Stage::Failed ==> r.0.key() == phase.key()
            && r.0.unsigned_allowed() == phase.unsigned_allowed() && r.0.installed_version()
            == phase.installed_version() && r.0.forced() == phase.forced(),
        r.0.current_stage() != Stage::Failed && phase.current_stage() != Stage::FetchingRelease
            ==> r.0.chosen() == phase.chosen(),
        phase.current_stage() == Stage::FetchingRelease && event is ReleaseFetched ==> (r.1 is DownloadArchive
            <==> release_goes_on(phase, event)),
        phase.current_stage() == Stage::FetchingRelease && phase.forced() && reinstallable(phase, event)
            ==> r.1 is DownloadArchive,
        phase.current_stage() == Stage::FetchingRelease && !phase.forced() && r.1 is DownloadArchive
            ==> newer_than_installed(phase, event),
        phase.current_stage() == Stage::FetchingRelease && event is ReleaseFetched ==> (
        r.1 is Fail || (r.1 matches UpdateAction::DownloadArchive { url } && (r.0.current_stage()
            == Stage::Downloading && (r.0.chosen() matches Some(info) && url@ == info.zip_url@
            && describes_fetched(event, info))))),
        forall|name: Seq<char>|
            phase.current_stage() == Stage::FetchingRelease && #[trigger] signature_missing(
                phase,
                event,
                name,
            ) ==> (r.1 matches UpdateAction::Fail(UpdateError::MissingAsset(m)) && m@ == name),
        phase.current_stage() == Stage::Downloading && event is ArchiveDownloaded ==> (
        r.0.archive_digest() == event->sha256_hex@ && after_download(phase, r.1)),
        phase.current_stage() == Stage::FetchingSignature && event is SignatureFetched ==> (r.1 is Fail
            <==> signature_refused(phase, event)),
        phase.current_stage() == Stage::FetchingSignature && event is SignatureFetched
            && !signature_refused(phase, event) ==> checksum_or_extract(phase.chosen(), r.1),
        phase.current_stage() == Stage::FetchingChecksum && event is ChecksumFetched ==> after_checksum(
            phase.archive_digest(),
            event->text@,
            r.1,
        ),
        phase.current_stage() == Stage::Extracting && event is Extracted ==> r.1 is ReadManifest
            && r.0.extracted_files() == event->files@,
        phase.current_stage() == Stage::ReadingManifest && event is ManifestRead ==> after_manifest(
            event,
            phase.extracted_files(),
            r.1,
        ),
        phase.current_stage() == Stage::Installing && event is Installed ==> (r.1 matches UpdateAction::WriteRecord {
            version,
        } && phase.chosen() matches Some(info) && version@ == info.version@),
        phase.current_stage() == Stage::Recording && event is RecordWritten ==> (r.1 matches UpdateAction::Finish {
            version,
        } && phase.chosen() matches Some(info) && version@ == info.version@),
        !(event is Failed) && (phase.current_stage() == Stage::Finished || phase.current_stage()
            == Stage::Failed) ==> (r.1 matches UpdateAction::Fail(UpdateError::Download(m)) && m@
            == out_of_order_text()),
{
    proof {
        use_type_invariant(&phase);
    }
    if let UpdateEvent::Failed(e) = event {
        return failed(e);
    }
    match phase.stage {
        Stage::FetchingRelease => {
            let release = match event {
                UpdateEvent::ReleaseFetched(release) => release,
                _ => return out_of_order(),
            };
            let info = match select_update(&release, phase.current.as_str(), phase.force) {
                Ok(info) => info,
                Err(e) => return failed(e),
            };
            let checked = match &phase.pubkey_hex {
                Some(k) => signature_check(&info, Some(k.as_str()), phase.allow_unsigned),
                None => signature_check(&info, None, phase.allow_unsigned),
            };
            let signature = match checked {
                Ok(s) => s,
                Err(e) => return failed(e),
            };
            let url = copy_text(&info.zip_url);
            let next = UpdatePhase {
                stage: Stage::Downloading,
                info: Some(info),
                signature: Some(signature),
                ..phase
            };
            (next, UpdateAction::DownloadArchive { url })
        },
        Stage::Downloading => {
            let sha256_hex = match event {
                UpdateEvent::ArchiveDownloaded { sha256_hex } => sha256_hex,
                _ => return out_of_order(),
            };
            let verify_url = match &phase.signature {
                Some(SignatureCheck::Verify { url, .. }) => Some(copy_text(url)),
                _ => None,
            };
            let next = UpdatePhase { actual_hash: sha256_hex, ..phase };
            match verify_url {
                Some(url) => {
                    let next = UpdatePhase { stage: Stage::FetchingSignature, ..next };
                    (next, UpdateAction::FetchSignature { url })
                },
                None => after_authentication(next),
            }
        },
        Stage::FetchingSignature => {
            let (archive, signature) = match event {
                UpdateEvent::SignatureFetched { archive, signature } => (archive, signature),
                _ => return out_of_order(),
            };
            let outcome = match &phase.signature {
                Some(SignatureCheck::Verify { pubkey_hex, .. }) => verify_signature(
                    archive.as_slice(),
                    signature.as_slice(),
                    pubkey_hex.as_str(),
                ),
                _ => return out_of_order(),
            };
            match outcome {
                Err(e) => failed(e),
                Ok(()) => {
                    let next = UpdatePhase {
                        stage: Stage::FetchingSignature,
                        signed: Ghost(Some((archive@, signature@))),
                        ..phase
                    };
                    after_authentication(next)
                },
            }
        },
        Stage::FetchingChecksum => {
            let text = match event {
                UpdateEvent::ChecksumFetched { text } => text,
                _ => return out_of_order(),
            };
            let expected = match checksum_from_text(text.as_str()) {
                Ok(c) => c,
                Err(e) => return failed(e),
            };
            match verify_checksum(phase.actual_hash.as_str(), expected.as_str()) {
                Err(e) => failed(e),
                Ok(()) => {
                    let next = UpdatePhase {
                        stage: Stage::Extracting,
                        published: Ghost(Some(text@)),
                        ..phase
                    };
                    (next, UpdateAction::Extract)
                },
            }
        },
        Stage::Extracting => {
            let files = match event {
                UpdateEvent::Extracted { files } => files,
                _ => return out_of_order(),
            };
            let next = UpdatePhase { stage: Stage::ReadingManifest, extracted: files, ..phase };
            (next, UpdateAction::ReadManifest)
        },
        Stage::ReadingManifest => {
            let read = match event {
                UpdateEvent::ManifestRead(read) => read,
                _ => return out_of_order(),
            };
            let seen: Ghost<Option<ManifestCheck>> = match read {
                None => Ghost(Some(None)),
                Some((manifest, hashes)) => {
                    if hashes.len() != manifest.files.len() {
                        return failed(
                            UpdateError::Manifest(
                                String::from_str("file digests do not match the manifest's files"),
                            ),
                        );
                    }
                    match verify_manifest(&manifest, &hashes) {
                        Err(e) => return failed(e),
                        Ok(()) => Ghost(Some(Some((manifest.files@, hashes@)))),
                    }
                },
            };
            let mut names: Vec<String> = Vec::new();
            let mut i: usize = 0;
            while i < phase.extracted.len()
                invariant
                    i <= phase.extracted@.len(),
                    names@.len() == i,
                    forall|j: int| 0 <= j < i ==> (#[trigger] names@[j])@ == phase.extracted@[j]@,
                decreases phase.extracted.len() - i,
            {
                names.push(copy_text(&phase.extracted[i]));
                i = i + 1;
            }
            let files = install_file_list(names);
            proof {
                lemma_installable_by_name(names@, phase.extracted@);
            }
            let next = UpdatePhase { stage: Stage::Installing, manifest_seen: seen, ..phase };
            (next, UpdateAction::Install { files })
        },
        Stage::Installing => {
            match event {
                UpdateEvent::Installed => {},
                _ => return out_of_order(),
            }
            let version = match &phase.info {
                Some(info) => copy_text(&info.version),
                None => return out_of_order(),
            };
            let next = UpdatePhase { stage: Stage::Recording, ..phase };
            (next, UpdateAction::WriteRecord { version })
        },
        Stage::Recording => {
            match event {
                UpdateEvent::RecordWritten => {},
                _ => return out_of_order(),
            }
            let version = match &phase.info {
                Some(info) => copy_text(&info.version),
                None => return out_of_order(),
            };
            let next = UpdatePhase { stage: Stage::Finished, ..phase };
            (next, UpdateAction::Finish { version })
        },
        Stage::Finished | Stage::Failed => out_of_order(),
    }
}

/// An archive counts as authentic only in two ways: with a key built in, a
/// signature verified with that key over the archive's bytes; without one,
/// the explicit permission to install unsigned updates.
pub proof fn law_authentic_only_by_key_or_permission(phase: UpdatePhase)
    requires
        phase.archive_authentic(),
    ensures
        phase.key() is None ==> phase.unsigned_allowed(),
        phase.key() matches Some(k) ==> (phase.verified_archive() matches Some((archive, signature))
            && signature_result(archive, signature, k) is Ok),
{
}

proof fn lemma_installable_by_name(a: Seq<String>, b: Seq<String>)
    requires
        a.len() == b.len(),
        forall|j: int| 0 <= j < a.len() ==> (#[trigger] a[j])@ == b[j]@,
    ensures
        installable(a) == installable(b),
    decreases a.len(),
{
    if a.len() > 0 {
        lemma_installable_by_name(a.drop_last(), b.drop_last());
    }
}

} // verus!
