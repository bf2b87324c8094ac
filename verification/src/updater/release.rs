//! The manifest shipped inside a release archive (`version.json`) and the
//! checks made on the extracted files before they are installed.
use vstd::prelude::*;
use vstd::string::StringExecFns;
use crate::text::str_eq;
use crate::updater::github::{UpdateError, UpdateInfo};

verus! {

/// What the manifest records of one file.
#[derive(Debug, Clone)]
pub struct FileEntry {
    pub sha256: String,
    pub arch: String,
}

/// The release's version and, for each file name, what is recorded of it.
/// Each name occurs once, as in the map the manifest is read from.
#[derive(Debug, Clone)]
pub struct ReleaseManifest {
    pub version: String,
    pub files: Vec<(String, FileEntry)>,
}

/// No file name occurs twice.
pub open spec fn names_distinct(files: Seq<(String, FileEntry)>) -> bool {
    forall|i: int, j: int|
        0 <= i < files.len() && 0 <= j < files.len() && i != j ==> #[trigger] files[i].0@
            != #[trigger] files[j].0@
}

/// Some listed file is called `name`.
pub open spec fn has_name(files: Seq<(String, FileEntry)>, name: Seq<char>) -> bool {
    exists|i: int| 0 <= i < files.len() && #[trigger] files[i].0@ == name
}

impl ReleaseManifest {
    pub open spec fn well_formed(&self) -> bool {
        names_distinct(self.files@)
    }

    /// A manifest of `version` with no files.
    pub fn new(version: String) -> (m: Self)
        ensures
            m.well_formed(),
            m.version == version,
            m.files@.len() == 0,
    {
        ReleaseManifest { version, files: Vec::new() }
    }

    /// Records `entry` for `name`, replacing what was recorded for it in
    /// place, or adding it at the end when the name is new.
    pub fn insert(&mut self, name: String, entry: FileEntry)
        requires
            old(self).well_formed(),
        ensures
            final(self).well_formed(),
            final(self).version == old(self).version,
            has_name(old(self).files@, name@) ==> exists|i: int|
                0 <= i < old(self).files@.len() && (#[trigger] old(self).files@[i]).0@ == name@
                    && final(self).files@ == old(self).files@.update(i, (name, entry)),
            !has_name(old(self).files@, name@) ==> final(self).files@ == old(self).files@.push(
                (name, entry),
            ),
    {
        let mut i: usize = 0;
        while i < self.files.len()
            invariant
                i <= self.files@.len(),
                self.files@ == old(self).files@,
                self.version == old(self).version,
                names_distinct(self.files@),
                forall|j: int| 0 <= j < i ==> (#[trigger] self.files@[j]).0@ != name@,
            decreases self.files.len() - i,
        {
            if str_eq(self.files[i].0.as_str(), name.as_str()) {
                let ghost before = self.files@;
                let ghost item = (name, entry);
                self.files.set(i, (name, entry));
                assert(self.files@ == before.update(i as int, item));
                assert(old(self).files@[i as int].0@ == name@);
                assert(names_distinct(self.files@)) by {
                    assert forall|a: int, b: int|
                        0 <= a < self.files@.len() && 0 <= b < self.files@.len() && a != b implies #[trigger] self.files@[a].0@
                        != #[trigger] self.files@[b].0@ by {
                        if a != i && b != i {
                            assert(before[a].0@ != before[b].0@);
                        } else if a == i {
                            assert(before[b].0@ != before[a].0@);
                        } else {
                            assert(before[a].0@ != before[b].0@);
                        }
                    }
                }
                return;
            }
            i = i + 1;
        }
        let ghost before = self.files@;
        self.files.push((name, entry));
        assert(names_distinct(self.files@)) by {
            assert forall|a: int, b: int|
                0 <= a < self.files@.len() && 0 <= b < self.files@.len() && a != b implies #[trigger] self.files@[a].0@
                != #[trigger] self.files@[b].0@ by {
                if a < before.len() && b < before.len() {
                    assert(before[a].0@ != before[b].0@);
                } else if a < before.len() {
                    assert(before[a].0@ != name@);
                } else {
                    assert(before[b].0@ != name@);
                }
            }
        }
    }
}

/// The `i`th listed file was found and its digest differs from the recorded one.
pub open spec fn digest_differs(files: Seq<(String, FileEntry)>, hashes: Seq<Option<String>>, i: int) -> bool {
    hashes[i] matches Some(h) && h@ != files[i].1.sha256@
}

/// Checks each file the manifest lists against its digest. `hashes` holds,
/// for each listed file in order, the digest of the extracted file, or
/// `None` when the archive holds no such file (which is not checked). The
/// first difference is reported.
pub fn verify_manifest(manifest: &ReleaseManifest, hashes: &Vec<Option<String>>) -> (r: Result<
    (),
    UpdateError,
>)
    requires
        hashes@.len() == manifest.files@.len(),
    ensures
        r is Ok <==> forall|i: int| 0 <= i < hashes@.len() ==> !digest_differs(manifest.files@, hashes@, i),
        r is Err ==> exists|i: int| {
            &&& 0 <= i < hashes@.len()
            &&& #[trigger] digest_differs(manifest.files@, hashes@, i)
            &&& forall|j: int| 0 <= j < i ==> !digest_differs(manifest.files@, hashes@, j)
            &&& r matches Err(UpdateError::ChecksumMismatch { expected, actual })
            &&& expected@ == manifest.files@[i].1.sha256@
            &&& hashes@[i] matches Some(h) && actual@ == h@
        },
{
    let mut i: usize = 0;
    while i < hashes.len()
        invariant
            i <= hashes@.len(),
            hashes@.len() == manifest.files@.len(),
            forall|j: int| 0 <= j < i ==> !digest_differs(manifest.files@, hashes@, j),
        decreases hashes.len() - i,
    {
        if let Some(h) = &hashes[i] {
            let expected = &manifest.files[i].1.sha256;
            if !str_eq(h.as_str(), expected.as_str()) {
                let e = UpdateError::ChecksumMismatch {
                    expected: expected.clone(),
                    actual: h.clone(),
                };
                assert(digest_differs(manifest.files@, hashes@, i as int));
                return Err(e);
            }
        }
        i = i + 1;
    }
    Ok(())
}

/// The names of the extracted files other than the manifest itself.
pub open spec fn installable(names: Seq<String>) -> Seq<Seq<char>>
    decreases names.len(),
{
    if names.len() == 0 {
        Seq::empty()
    } else {
        let rest = installable(names.drop_last());
        if names.last()@ == "version.json"@ {
            rest
        } else {
            rest.push(names.last()@)
        }
    }
}

/// The extracted files that are installed: all but `version.json`, in order.
pub fn install_file_list(extracted: Vec<String>) -> (files: Vec<String>)
    ensures
        files@.map_values(|n: String| n@) == installable(extracted@),
{
    let mut files: Vec<String> = Vec::new();
    let mut i: usize = 0;
    while i < extracted.len()
        invariant
            i <= extracted@.len(),
            files@.map_values(|n: String| n@) == installable(extracted@.subrange(0, i as int)),
        decreases extracted.len() - i,
    {
        proof {
            let t = extracted@.subrange(0, i + 1);
            assert(t.drop_last() =~= extracted@.subrange(0, i as int));
        }
        if !str_eq(extracted[i].as_str(), "version.json") {
            files.push(extracted[i].clone());
            assert(files@.map_values(|n: String| n@) =~= installable(extracted@.subrange(0, i as int)).push(extracted@[i as int]@));
        }
        i = i + 1;
    }
    assert(extracted@.subrange(0, extracted@.len() as int) =~= extracted@);
    files
}

/// How the archive is shown to be authentic before it is extracted.
#[derive(Debug, Clone, PartialEq, Eq)]
pub enum SignatureCheck {
    /// Download the detached signature from `url` and verify the archive
    /// with the Ed25519 key `pubkey_hex`.
    Verify { url: String, pubkey_hex: String },
    /// Install without a signature.
    Unsigned,
}

/// The refusal when no signing key is built in and unsigned updates were
/// not allowed.
pub open spec fn unsigned_refusal() -> Seq<char> {
    "no update signing key is built in; refusing to install an unsigned update (pass --allow-unsigned to override)"@
}

/// Decides how the update's archive is authenticated. With a public key
/// built in, the release's signature is always verified (a release without
/// one is refused); without a key the update is refused unless unsigned
/// updates were explicitly allowed. So an update goes ahead unsigned only
/// when there is no key and `allow_unsigned` was given.
pub fn signature_check(info: &UpdateInfo, pubkey_hex: Option<&str>, allow_unsigned: bool) -> (r: Result<
    SignatureCheck,
    UpdateError,
>)
    ensures
        pubkey_hex matches Some(k) ==> match info.signature_url {
            Some(u) => r matches Ok(SignatureCheck::Verify { url, pubkey_hex: key }) && url@ == u@
                && key@ == k@,
            None => r matches Err(UpdateError::MissingAsset(m)) && m@ == info.signature_name@,
        },
        pubkey_hex is None && allow_unsigned ==> r == Ok::<SignatureCheck, UpdateError>(
            SignatureCheck::Unsigned,
        ),
        pubkey_hex is None && !allow_unsigned ==> (r matches Err(UpdateError::SignatureInvalid(m))
            && m@ == unsigned_refusal()),
        r matches Ok(SignatureCheck::Unsigned) ==> pubkey_hex is None && allow_unsigned,
{
    match pubkey_hex {
        Some(k) => match &info.signature_url {
            Some(u) => Ok(SignatureCheck::Verify { url: u.clone(), pubkey_hex: String::from_str(k) }),
            None => Err(UpdateError::MissingAsset(info.signature_name.clone())),
        },
        None => {
            if allow_unsigned {
                Ok(SignatureCheck::Unsigned)
            } else {
                Err(
                    UpdateError::SignatureInvalid(
                        String::from_str(
                            "no update signing key is built in; refusing to install an unsigned update (pass --allow-unsigned to override)",
                        ),
                    ),
                )
            }
        },
    }
}

} // verus!
