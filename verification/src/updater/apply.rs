//! Replacing installed files with new ones and restoring them from backups:
//! the plan of which file goes where, and the decisions taken as each file
//! operation succeeds or fails. The file operations themselves are done by
//! the program around the library.
use vstd::prelude::*;
use vstd::string::StringExecFns;
use crate::text::{decimal, occurs_at, starts_with_str, u64_to_decimal};
use crate::updater::github::{update_error_text, UpdateError};

verus! {

/// A path as the program around the library builds it: a base directory
/// and the names joined under it, one after the other.
#[derive(Debug, Clone, PartialEq, Eq)]
pub struct PlanPath {
    pub base: String,
    pub parts: Vec<String>,
}

impl View for PlanPath {
    type V = (Seq<char>, Seq<Seq<char>>);

    /// The base directory and the joined names.
    open spec fn view(&self) -> (Seq<char>, Seq<Seq<char>>) {
        (self.base@, self.parts@.map_values(|p: String| p@))
    }
}

impl PlanPath {
    /// The base directory itself.
    pub fn dir(base: &str) -> (p: PlanPath)
        ensures
            p@ == (base@, Seq::<Seq<char>>::empty()),
    {
        let p = PlanPath { base: String::from_str(base), parts: Vec::new() };
        assert(p@.1 =~= Seq::<Seq<char>>::empty());
        p
    }

    /// This path with `name` joined under it.
    pub fn join(&self, name: &str) -> (p: PlanPath)
        ensures
            p@ == (self@.0, self@.1.push(name@)),
    {
        let mut parts: Vec<String> = Vec::new();
        let mut i: usize = 0;
        while i < self.parts.len()
            invariant
                i <= self.parts@.len(),
                parts@.len() == i,
                forall|j: int| 0 <= j < i ==> (#[trigger] parts@[j])@ == self.parts@[j]@,
            decreases self.parts.len() - i,
        {
            parts.push(String::from_str(self.parts[i].as_str()));
            i = i + 1;
        }
        parts.push(String::from_str(name));
        let p = PlanPath { base: String::from_str(self.base.as_str()), parts };
        assert(p@.1 =~= self@.1.push(name@));
        p
    }
}

/// One file of an update: where the new version is staged, where it is
/// installed and where the version it replaces is kept.
pub struct FileUpdate {
    pub filename: String,
    pub source: PlanPath,
    pub target: PlanPath,
    pub backup: PlanPath,
}

/// The files an update replaces, in the order they are replaced.
pub struct UpdatePlan {
    pub install_dir: PlanPath,
    pub staging_dir: PlanPath,
    pub backup_dir: PlanPath,
    pub files: Vec<FileUpdate>,
}

/// The names of the plan's files, in order.
pub open spec fn file_names(files: Seq<FileUpdate>) -> Seq<Seq<char>> {
    files.map_values(|f: FileUpdate| f.filename@)
}

/// Each file of the plan is the name at its position, moved from
/// `source_dir` to `target_dir`, and what it replaces kept in `backup_dir`.
pub open spec fn files_between(
    files: Seq<FileUpdate>,
    names: Seq<String>,
    source_dir: (Seq<char>, Seq<Seq<char>>),
    target_dir: (Seq<char>, Seq<Seq<char>>),
    backup_dir: (Seq<char>, Seq<Seq<char>>),
) -> bool {
    &&& files.len() == names.len()
    &&& forall|i: int| #![trigger files[i]] 0 <= i < files.len() ==> {
        let n = names[i]@;
        &&& files[i].filename@ == n
        &&& files[i].source@ == (source_dir.0, source_dir.1.push(n))
        &&& files[i].target@ == (target_dir.0, target_dir.1.push(n))
        &&& files[i].backup@ == (backup_dir.0, backup_dir.1.push(n))
    }
}

fn file_updates(
    source_dir: &PlanPath,
    target_dir: &PlanPath,
    backup_dir: &PlanPath,
    filenames: &Vec<String>,
) -> (files: Vec<FileUpdate>)
    ensures
        files_between(files@, filenames@, source_dir@, target_dir@, backup_dir@),
        file_names(files@) == filenames@.map_values(|n: String| n@),
{
    let mut files: Vec<FileUpdate> = Vec::new();
    let mut i: usize = 0;
    while i < filenames.len()
        invariant
            i <= filenames@.len(),
            files@.len() == i,
            forall|j: int| #![trigger files@[j]] 0 <= j < i ==> {
                let n = filenames@[j]@;
                &&& files@[j].filename@ == n
                &&& files@[j].source@ == (source_dir@.0, source_dir@.1.push(n))
                &&& files@[j].target@ == (target_dir@.0, target_dir@.1.push(n))
                &&& files@[j].backup@ == (backup_dir@.0, backup_dir@.1.push(n))
            },
        decreases filenames.len() - i,
    {
        let name = filenames[i].as_str();
        files.push(
            FileUpdate {
                filename: String::from_str(name),
                source: source_dir.join(name),
                target: target_dir.join(name),
                backup: backup_dir.join(name),
            },
        );
        i = i + 1;
    }
    assert(file_names(files@) =~= filenames@.map_values(|n: String| n@));
    files
}

/// The name of an update's backup directory: `.update-backup-{timestamp}`.
pub open spec fn backup_dir_name(timestamp: u64) -> Seq<char> {
    ".update-backup-"@ + decimal(timestamp as nat)
}

impl UpdatePlan {
    /// The plan that installs the staged `filenames` from `staging_dir` into
    /// `install_dir`, keeping the replaced files in
    /// `.update-backup-{timestamp}` inside it. Creating that directory is
    /// left to the caller.
    pub fn new(install_dir: &str, staging_dir: &str, filenames: &Vec<String>, timestamp: u64) -> (plan: Self)
        ensures
            plan.install_dir@ == (install_dir@, Seq::<Seq<char>>::empty()),
            plan.staging_dir@ == (staging_dir@, Seq::<Seq<char>>::empty()),
            plan.backup_dir@ == (install_dir@, seq![backup_dir_name(timestamp)]),
            files_between(
                plan.files@,
                filenames@,
                plan.staging_dir@,
                plan.install_dir@,
                plan.backup_dir@,
            ),
            file_names(plan.files@) == filenames@.map_values(|n: String| n@),
    {
        let install = PlanPath::dir(install_dir);
        let staging = PlanPath::dir(staging_dir);
        let mut dir_name = String::from_str(".update-backup-");
        let ts = u64_to_decimal(timestamp);
        dir_name.append(ts.as_str());
        let backup_dir = install.join(dir_name.as_str());
        assert(backup_dir@.1 =~= seq![backup_dir_name(timestamp)]);
        let files = file_updates(&staging, &install, &backup_dir, filenames);
        UpdatePlan { install_dir: install, staging_dir: staging, backup_dir, files }
    }
}

/// The plan that puts back the files kept in the backup directory
/// `backup_name` of `install_dir`: each is moved from there into
/// `install_dir`, and the files it replaces are kept in `.rollback-tmp`
/// inside `install_dir`. A backup with no files is refused.
pub fn rollback_plan(install_dir: &str, backup_name: &str, filenames: &Vec<String>) -> (r: Result<
    UpdatePlan,
    UpdateError,
>)
    ensures
        filenames@.len() == 0 ==> (r matches Err(UpdateError::Io(m)) && m@
            == "Backup directory is empty"@),
        filenames@.len() > 0 ==> (r matches Ok(plan) && plan.install_dir@ == (
            install_dir@,
            Seq::<Seq<char>>::empty(),
        ) && plan.staging_dir@ == (install_dir@, seq![backup_name@])
            && plan.backup_dir@ == (install_dir@, seq![".rollback-tmp"@]) && files_between(
            plan.files@,
            filenames@,
            plan.staging_dir@,
            plan.install_dir@,
            plan.backup_dir@,
        ) && file_names(plan.files@) == filenames@.map_values(|n: String| n@)),
{
    if filenames.len() == 0 {
        return Err(UpdateError::Io(String::from_str("Backup directory is empty")));
    }
    let install = PlanPath::dir(install_dir);
    let backup = install.join(backup_name);
    let tmp = install.join(".rollback-tmp");
    assert(backup@.1 =~= seq![backup_name@]);
    assert(tmp@.1 =~= seq![".rollback-tmp"@]);
    let files = file_updates(&backup, &install, &tmp, filenames);
    Ok(UpdatePlan { install_dir: install, staging_dir: backup, backup_dir: tmp, files })
}

/// The error when no backup is there to roll back from.
pub fn no_backup_error() -> (e: UpdateError)
    ensures
        e matches UpdateError::Io(m) && m@ == "No backup directory found to roll back from"@,
{
    UpdateError::Io(String::from_str("No backup directory found to roll back from"))
}

/// `{filename}: {error}` for each file whose restore failed, in plan order.
pub open spec fn restore_failures(files: Seq<FileUpdate>, outcomes: Seq<Result<(), UpdateError>>) -> Seq<
    Seq<char>,
>
    decreases outcomes.len(),
{
    if outcomes.len() == 0 {
        Seq::empty()
    } else {
        let k = outcomes.len() - 1;
        let before = restore_failures(files, outcomes.drop_last());
        match outcomes.last() {
            Ok(()) => before,
            Err(e) => before.push(files[k].filename@ + ": "@ + update_error_text(e)),
        }
    }
}

/// The parts joined with `, ` between them.
pub open spec fn join_comma(parts: Seq<Seq<char>>) -> Seq<char>
    decreases parts.len(),
{
    if parts.len() == 0 {
        Seq::empty()
    } else if parts.len() == 1 {
        parts[0]
    } else {
        join_comma(parts.drop_last()) + ", "@ + parts.last()
    }
}

/// The outcome of a rollback, given the outcome of restoring each file of
/// the plan (every file is attempted, whatever happened to the others): `Ok`
/// when all were restored, else one error listing each failure.
pub fn rollback(plan: &UpdatePlan, restored: &Vec<Result<(), UpdateError>>) -> (r: Result<
    (),
    UpdateError,
>)
    requires
        restored@.len() == plan.files@.len(),
    ensures
        restore_failures(plan.files@, restored@).len() == 0 ==> r is Ok,
        restore_failures(plan.files@, restored@).len() > 0 ==> (r matches Err(UpdateError::Io(m))
            && m@ == "Rollback errors: "@ + join_comma(restore_failures(plan.files@, restored@))),
{
    let mut joined = String::new();
    let mut count: usize = 0;
    let mut i: usize = 0;
    while i < restored.len()
        invariant
            i <= restored@.len(),
            restored@.len() == plan.files@.len(),
            count <= i,
            count == restore_failures(plan.files@, restored@.subrange(0, i as int)).len(),
            joined@ == join_comma(restore_failures(plan.files@, restored@.subrange(0, i as int))),
        decreases restored.len() - i,
    {
        proof {
            let t = restored@.subrange(0, i + 1);
            assert(t.drop_last() =~= restored@.subrange(0, i as int));
        }
        match &restored[i] {
            Ok(()) => {},
            Err(e) => {
                if count > 0 {
                    joined.append(", ");
                }
                joined.append(plan.files[i].filename.as_str());
                joined.append(": ");
                let m = e.message();
                joined.append(m.as_str());
                proof {
                    let fails = restore_failures(plan.files@, restored@.subrange(0, i + 1));
                    assert(fails.drop_last() =~= restore_failures(
                        plan.files@,
                        restored@.subrange(0, i as int),
                    ));
                }
                count = count + 1;
            },
        }
        i = i + 1;
    }
    assert(restored@.subrange(0, restored@.len() as int) =~= restored@);
    if count == 0 {
        Ok(())
    } else {
        let mut m = String::from_str("Rollback errors: ");
        m.append(joined.as_str());
        Err(UpdateError::Io(m))
    }
}

/// What to do next while applying a plan.
#[derive(Debug, Clone, PartialEq, Eq)]
pub enum ApplyAction {
    /// Replace the file at this position of the plan.
    Replace(usize),
    /// Restore these files from their backups, in this order, then report
    /// the error that stopped the update.
    RollBack { restore: Vec<usize>, error: UpdateError },
    /// Every file was replaced.
    Finished { count: usize },
}

/// The positions `applied - 1` down to `0`: the files replaced so far,
/// newest first.
pub open spec fn newest_first(applied: nat) -> Seq<usize> {
    Seq::new(applied, |k: int| (applied - 1 - k) as usize)
}

/// The first action of applying a plan of `total` files.
pub fn first_action(total: usize) -> (a: ApplyAction)
    ensures
        total == 0 ==> a == (ApplyAction::Finished { count: 0 }),
        total > 0 ==> a == ApplyAction::Replace(0),
{
    if total == 0 {
        ApplyAction::Finished { count: 0 }
    } else {
        ApplyAction::Replace(0)
    }
}

/// The action after trying to replace the file at position `index` of a
/// plan of `total` files. On success the next file is replaced; on failure
/// the update is rolled back and fails with the error: the failing file
/// (whose old version may already sit in its backup) and every file
/// replaced before it are restored, newest first.
pub fn after_replace(index: usize, total: usize, outcome: Result<(), UpdateError>) -> (a: ApplyAction)
    requires
        index < total,
    ensures
        outcome is Ok && index + 1 < total ==> a == ApplyAction::Replace((index + 1) as usize),
        outcome is Ok && index + 1 == total ==> a == (ApplyAction::Finished { count: total }),
        outcome matches Err(e) ==> (a matches ApplyAction::RollBack { restore, error }
            && restore@ == newest_first((index + 1) as nat) && error == e),
{
    match outcome {
        Ok(()) => {
            if index + 1 < total {
                ApplyAction::Replace(index + 1)
            } else {
                ApplyAction::Finished { count: total }
            }
        },
        Err(e) => {
            let mut restore: Vec<usize> = Vec::new();
            let applied: usize = index + 1;
            let mut k: usize = applied;
            while k > 0
                invariant
                    k <= applied,
                    applied == index + 1,
                    restore@ == newest_first(applied as nat).subrange(0, (applied - k) as int),
                decreases k,
            {
                k = k - 1;
                restore.push(k);
                assert(restore@ =~= newest_first(applied as nat).subrange(0, (applied - k) as int));
            }
            assert(restore@ =~= newest_first(applied as nat));
            ApplyAction::RollBack { restore, error: e }
        },
    }
}

/// A name ends in `.old` with something before it: `Path::extension` gives
/// `old` for it.
pub open spec fn has_old_extension(name: Seq<char>) -> bool {
    name.len() > 4 && name.subrange(name.len() - 4, name.len() as int) == ".old"@
}

/// A directory named like an update's backup directory.
pub open spec fn is_backup_dir(name: Seq<char>, is_dir: bool) -> bool {
    is_dir && occurs_at(name, ".update-backup-"@, 0)
}

/// What cleaning up the install directory does to one of its entries.
#[derive(Debug, Clone, Copy, PartialEq, Eq)]
pub struct CleanupAction {
    /// Remove it as a file (left over from an earlier update).
    pub remove_file: bool,
    /// Remove it as a directory with its contents (a backup older than the
    /// latest one).
    pub remove_dir: bool,
}

/// `a` sorts strictly before `b`, character by character (for UTF-8 text,
/// the same order as byte by byte).
pub open spec fn lex_lt(a: Seq<char>, b: Seq<char>) -> bool
    decreases a.len(),
{
    if a.len() == 0 {
        b.len() > 0
    } else if b.len() == 0 {
        false
    } else if a[0] != b[0] {
        (a[0] as u32) < (b[0] as u32)
    } else {
        lex_lt(a.subrange(1, a.len() as int), b.subrange(1, b.len() as int))
    }
}

/// `lex_lt` is the ordinary lexicographic order (the order `sort` gives
/// strings): a proper prefix sorts first, and otherwise the first position
/// where two names differ decides, by the characters' code points.
pub proof fn law_lex_order(a: Seq<char>, b: Seq<char>, k: int)
    ensures
        k == a.len() && a.len() < b.len() && (forall|j: int| 0 <= j < k ==> a[j] == b[j]) ==> lex_lt(
            a,
            b,
        ),
        0 <= k < a.len() && k < b.len() && (forall|j: int| 0 <= j < k ==> a[j] == b[j]) && a[k]
            != b[k] ==> (lex_lt(a, b) <==> (a[k] as u32) < (b[k] as u32)),
        !lex_lt(a, a),
    decreases a.len(),
{
    if a.len() > 0 && b.len() > 0 && 0 < k <= a.len() && k <= b.len() && (forall|j: int|
        0 <= j < k ==> a[j] == b[j]) {
        let a1 = a.subrange(1, a.len() as int);
        let b1 = b.subrange(1, b.len() as int);
        assert forall|j: int| 0 <= j < k - 1 implies a1[j] == b1[j] by {
            assert(a1[j] == a[j + 1] && b1[j] == b[j + 1]);
        }
        if k < a.len() && k < b.len() {
            assert(a1[k - 1] == a[k] && b1[k - 1] == b[k]);
        }
        law_lex_order(a1, b1, k - 1);
        assert(a[0] == b[0]);
    }
    lemma_lex_irreflexive(a);
}

proof fn lemma_lex_irreflexive(a: Seq<char>)
    ensures
        !lex_lt(a, a),
    decreases a.len(),
{
    if a.len() > 0 {
        lemma_lex_irreflexive(a.subrange(1, a.len() as int));
    }
}

proof fn lemma_lex_total(a: Seq<char>, b: Seq<char>)
    ensures
        a != b ==> lex_lt(a, b) || lex_lt(b, a),
        !(lex_lt(a, b) && lex_lt(b, a)),
    decreases a.len(),
{
    if a.len() > 0 && b.len() > 0 {
        if a[0] == b[0] {
            let a1 = a.subrange(1, a.len() as int);
            let b1 = b.subrange(1, b.len() as int);
            lemma_lex_total(a1, b1);
            if a1 == b1 {
                assert(a =~= seq![a[0]] + a1);
                assert(b =~= seq![b[0]] + b1);
            }
        } else {
            let x = a[0] as u32;
            let y = b[0] as u32;
            vstd::utf8::char_u32_cast(a[0], x);
            vstd::utf8::char_u32_cast(b[0], y);
            assert(x != y);
        }
    } else if a.len() == 0 && b.len() == 0 {
        assert(a =~= b);
    }
}

proof fn lemma_lex_trans(a: Seq<char>, b: Seq<char>, c: Seq<char>)
    requires
        lex_lt(a, b),
        lex_lt(b, c),
    ensures
        lex_lt(a, c),
    decreases a.len(),
{
    if a.len() > 0 && b.len() > 0 && c.len() > 0 && a[0] == b[0] && b[0] == c[0] {
        lemma_lex_trans(
            a.subrange(1, a.len() as int),
            b.subrange(1, b.len() as int),
            c.subrange(1, c.len() as int),
        );
    }
}

fn lex_less(a: &str, b: &str) -> (r: bool)
    ensures
        r == lex_lt(a@, b@),
{
    let n = a.unicode_len();
    let m = b.unicode_len();
    let mut i: usize = 0;
    assert(a@.subrange(0, n as int) =~= a@);
    assert(b@.subrange(0, m as int) =~= b@);
    while i < n && i < m
        invariant
            n == a@.len(),
            m == b@.len(),
            i <= n,
            i <= m,
            forall|j: int| 0 <= j < i ==> a@[j] == b@[j],
            lex_lt(a@, b@) == lex_lt(a@.subrange(i as int, n as int), b@.subrange(i as int, m as int)),
        decreases n - i,
    {
        let x = a.get_char(i);
        let y = b.get_char(i);
        if x != y {
            return (x as u32) < (y as u32);
        }
        proof {
            let s = a@.subrange(i as int, n as int);
            let t = b@.subrange(i as int, m as int);
            assert(s.subrange(1, s.len() as int) =~= a@.subrange(i + 1, n as int));
            assert(t.subrange(1, t.len() as int) =~= b@.subrange(i + 1, m as int));
        }
        i = i + 1;
    }
    i == n && i < m
}

/// An entry of the install directory that can be rolled back from: a
/// backup directory.
pub open spec fn backup_candidate(entries: Seq<(String, bool)>, i: int) -> bool {
    0 <= i < entries.len() && is_backup_dir(entries[i].0@, entries[i].1)
}

/// The backup to roll back from among the install directory's entries (name
/// and whether it is a directory): the backup directory whose name sorts
/// last, or none when there is no backup directory.
pub fn find_latest_backup(entries: &Vec<(String, bool)>) -> (r: Option<usize>)
    ensures
        r is None <==> !exists|i: int| backup_candidate(entries@, i),
        r matches Some(i) ==> backup_candidate(entries@, i as int) && forall|j: int|
            backup_candidate(entries@, j) ==> !lex_lt(#[trigger] entries@[i as int].0@, entries@[j].0@),
{
    let mut best: Option<usize> = None;
    let mut i: usize = 0;
    while i < entries.len()
        invariant
            i <= entries@.len(),
            best is None ==> forall|j: int| 0 <= j < i ==> !backup_candidate(entries@, j),
            best matches Some(b) ==> b < i && backup_candidate(entries@, b as int) && forall|j: int|
                0 <= j < i && backup_candidate(entries@, j) ==> !lex_lt(entries@[b as int].0@, entries@[j].0@),
        decreases entries.len() - i,
    {
        let (name, is_dir) = (&entries[i].0, entries[i].1);
        if is_dir && starts_with_str(name.as_str(), ".update-backup-") {
            match best {
                None => {
                    proof {
                        lemma_lex_total(entries@[i as int].0@, entries@[i as int].0@);
                    }
                    best = Some(i);
                },
                Some(b) => {
                    if lex_less(entries[b].0.as_str(), name.as_str()) {
                        proof {
                            let x = entries@[i as int].0@;
                            let bx = entries@[b as int].0@;
                            assert forall|j: int| 0 <= j < i + 1 && backup_candidate(entries@, j) implies !lex_lt(x, entries@[j].0@) by {
                                let y = entries@[j].0@;
                                lemma_lex_total(x, y);
                                lemma_lex_total(bx, y);
                                if lex_lt(x, y) {
                                    lemma_lex_trans(bx, x, y);
                                }
                            }
                        }
                        best = Some(i);
                    } else {
                        proof {
                            lemma_lex_total(entries@[b as int].0@, entries@[i as int].0@);
                        }
                    }
                },
            }
        }
        i = i + 1;
    }
    if let Some(b) = best {
        assert(backup_candidate(entries@, b as int));
    }
    best
}

fn old_extension(name: &str) -> (r: bool)
    ensures
        r == has_old_extension(name@),
{
    let n = name.unicode_len();
    if n > 4 {
        let tail = name.substring_char(n - 4, n);
        crate::text::str_eq(tail, ".old")
    } else {
        false
    }
}

/// A backup directory among the entries whose name sorts after that of
/// the entry at `i`.
pub open spec fn newer_backup_exists(entries: Seq<(String, bool)>, i: int) -> bool {
    exists|j: int| #[trigger] backup_candidate(entries, j) && lex_lt(entries[i].0@, entries[j].0@)
}

/// The cleanup of the install directory, given its entries (name and
/// whether it is a directory), entry by entry: files left over from an
/// earlier update (ending in `.old`) are removed, and so is every backup
/// directory but the latest, the one whose name sorts last, which is kept
/// for a rollback.
pub fn cleanup_actions(entries: &Vec<(String, bool)>) -> (r: Vec<CleanupAction>)
    ensures
        r@.len() == entries@.len(),
        forall|i: int| 0 <= i < entries@.len() ==> (#[trigger] r@[i]).remove_file == has_old_extension(entries@[i].0@),
        forall|i: int| 0 <= i < entries@.len() ==> (#[trigger] r@[i]).remove_dir == (backup_candidate(entries@, i)
            && newer_backup_exists(entries@, i)),
{
    let latest = find_latest_backup(entries);
    let mut r: Vec<CleanupAction> = Vec::new();
    let mut i: usize = 0;
    while i < entries.len()
        invariant
            i <= entries@.len(),
            r@.len() == i,
            latest is None <==> !exists|j: int| backup_candidate(entries@, j),
            latest matches Some(b) ==> backup_candidate(entries@, b as int) && forall|j: int|
                backup_candidate(entries@, j) ==> !lex_lt(#[trigger] entries@[b as int].0@, entries@[j].0@),
            forall|k: int| 0 <= k < i ==> (#[trigger] r@[k]).remove_file == has_old_extension(entries@[k].0@),
            forall|k: int| 0 <= k < i ==> (#[trigger] r@[k]).remove_dir == (backup_candidate(entries@, k)
                && newer_backup_exists(entries@, k)),
        decreases entries.len() - i,
    {
        let name = entries[i].0.as_str();
        let remove_file = old_extension(name);
        let candidate = entries[i].1 && starts_with_str(name, ".update-backup-");
        let remove_dir = match latest {
            Some(b) => candidate && lex_less(name, entries[b].0.as_str()),
            None => false,
        };
        proof {
            let x = entries@[i as int].0@;
            if candidate {
                match latest {
                    Some(b) => {
                        let bx = entries@[b as int].0@;
                        if remove_dir {
                            assert(backup_candidate(entries@, b as int) && lex_lt(x, bx));
                        } else {
                            assert forall|j: int| #[trigger] backup_candidate(entries@, j) implies !lex_lt(x, entries@[j].0@) by {
                                let y = entries@[j].0@;
                                lemma_lex_total(bx, y);
                                lemma_lex_total(x, bx);
                                if lex_lt(x, y) && lex_lt(y, bx) {
                                    lemma_lex_trans(x, y, bx);
                                }
                            }
                        }
                    },
                    None => {},
                }
            }
        }
        r.push(CleanupAction { remove_file, remove_dir });
        i = i + 1;
    }
    r
}

} // verus!
