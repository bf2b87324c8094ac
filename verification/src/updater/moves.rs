//! What replacing and restoring a plan's files do to the install directory,
//! as the moves the program around the library makes: replacing a file
//! renames the installed one (if any) to its backup and then renames the new
//! one into place; restoring a file, when it has a backup, removes what is in
//! place and renames the backup back. A rename is taken to move a file's
//! content whole, and the moves of a restore to succeed. With these moves,
//! the restore orders the library decides (`after_replace` on a failure,
//! `rollback` afterwards) give every file that was installed before the
//! update its old content again. A file the update adds, with nothing
//! installed before it, has no backup and stays.
use vstd::prelude::*;
use crate::updater::apply::{newest_first, FileUpdate};

verus! {

/// The files of a directory tree: the content at each path that holds one.
pub type FileTree = Map<(Seq<char>, Seq<Seq<char>>), Seq<u8>>;

/// Renaming the file at `from` to `to`: `to` takes its content and `from`
/// is gone; nothing changes when there is no file at `from`.
pub open spec fn move_file(t: FileTree, from: (Seq<char>, Seq<Seq<char>>), to: (Seq<char>, Seq<Seq<char>>)) -> FileTree {
    if t.contains_key(from) {
        t.remove(from).insert(to, t[from])
    } else {
        t
    }
}

/// Replacing one file, as far as it got: `steps` is 0 when the installed
/// file could not be moved to its backup, 1 when the new file could not be
/// moved into place, 2 when both moves were made.
pub open spec fn replaced(t: FileTree, f: FileUpdate, steps: nat) -> FileTree {
    let backed_up = if steps >= 1 {
        move_file(t, f.target@, f.backup@)
    } else {
        t
    };
    if steps >= 2 {
        move_file(backed_up, f.source@, f.target@)
    } else {
        backed_up
    }
}

/// Restoring one file: when its backup exists, the file in place is removed
/// and the backup moved back.
pub open spec fn restored(t: FileTree, f: FileUpdate) -> FileTree {
    if t.contains_key(f.backup@) {
        move_file(t.remove(f.target@), f.backup@, f.target@)
    } else {
        t
    }
}

/// The files before position `n` replaced, in order.
pub open spec fn replaced_upto(t: FileTree, files: Seq<FileUpdate>, n: nat) -> FileTree
    decreases n,
{
    if n == 0 {
        t
    } else {
        replaced(replaced_upto(t, files, (n - 1) as nat), files[n - 1], 2)
    }
}

/// The files at the positions `order` lists restored, in that order.
pub open spec fn restored_in_order(t: FileTree, files: Seq<FileUpdate>, order: Seq<usize>) -> FileTree
    decreases order.len(),
{
    if order.len() == 0 {
        t
    } else {
        restored(restored_in_order(t, files, order.drop_last()), files[order.last() as int])
    }
}

/// One of the three paths of a file of the plan.
pub open spec fn touches(f: FileUpdate, x: (Seq<char>, Seq<Seq<char>>)) -> bool {
    x == f.source@ || x == f.target@ || x == f.backup@
}

/// The plan's paths are all different: no two files share a path, and the
/// three paths of each file differ.
pub open spec fn paths_apart(files: Seq<FileUpdate>) -> bool {
    &&& forall|i: int|
        0 <= i < files.len() ==> #[trigger] files[i].source@ != files[i].target@
            && files[i].source@ != files[i].backup@ && files[i].target@ != files[i].backup@
    &&& forall|i: int, j: int, x: (Seq<char>, Seq<Seq<char>>)|
        0 <= i < files.len() && 0 <= j < files.len() && i != j && #[trigger] touches(files[i], x)
            ==> !#[trigger] touches(files[j], x)
}

/// Every position of `order` is a file of the plan, and none occurs twice.
pub open spec fn positions_once(order: Seq<usize>, len: nat) -> bool {
    &&& forall|k: int| 0 <= k < order.len() ==> #[trigger] order[k] < len
    &&& forall|k: int, l: int| 0 <= k < l < order.len() ==> #[trigger] order[k] != #[trigger] order[l]
}

/// `order` lists position `j`.
pub open spec fn lists(order: Seq<usize>, j: int) -> bool {
    exists|k: int| 0 <= k < order.len() && order[k] as int == j
}

spec fn same_at(t: FileTree, u: FileTree, x: (Seq<char>, Seq<Seq<char>>)) -> bool {
    &&& t.contains_key(x) == u.contains_key(x)
    &&& t.contains_key(x) ==> t[x] == u[x]
}

spec fn same_on(t: FileTree, u: FileTree, f: FileUpdate) -> bool {
    &&& same_at(t, u, f.source@)
    &&& same_at(t, u, f.target@)
    &&& same_at(t, u, f.backup@)
}

spec fn apart(f: FileUpdate, g: FileUpdate) -> bool {
    &&& !touches(f, g.source@)
    &&& !touches(f, g.target@)
    &&& !touches(f, g.backup@)
}

spec fn own_paths_differ(f: FileUpdate) -> bool {
    &&& f.source@ != f.target@
    &&& f.source@ != f.backup@
    &&& f.target@ != f.backup@
}

proof fn lemma_apart(files: Seq<FileUpdate>, i: int, j: int)
    requires
        paths_apart(files),
        0 <= i < files.len(),
        0 <= j < files.len(),
        i != j,
    ensures
        apart(files[i], files[j]),
        own_paths_differ(files[i]),
{
    assert(touches(files[j], files[j].source@));
    assert(touches(files[j], files[j].target@));
    assert(touches(files[j], files[j].backup@));
    assert(files[i].source@ != files[i].target@);
}

proof fn lemma_own(files: Seq<FileUpdate>, i: int)
    requires
        paths_apart(files),
        0 <= i < files.len(),
    ensures
        own_paths_differ(files[i]),
{
    assert(files[i].source@ != files[i].target@);
}

proof fn lemma_move_frame(t: FileTree, from: (Seq<char>, Seq<Seq<char>>), to: (Seq<char>, Seq<Seq<char>>), x: (Seq<char>, Seq<Seq<char>>))
    requires
        x != from,
        x != to,
    ensures
        same_at(move_file(t, from, to), t, x),
{
}

proof fn lemma_frame(t: FileTree, f: FileUpdate, steps: nat, g: FileUpdate)
    requires
        apart(f, g),
    ensures
        same_on(replaced(t, f, steps), t, g),
        same_on(restored(t, f), t, g),
{
}

proof fn lemma_local(t: FileTree, u: FileTree, f: FileUpdate, steps: nat)
    requires
        same_on(t, u, f),
        own_paths_differ(f),
    ensures
        same_on(replaced(t, f, steps), replaced(u, f, steps), f),
        same_on(restored(t, f), restored(u, f), f),
{
}

proof fn lemma_undo(t: FileTree, f: FileUpdate, steps: nat)
    requires
        own_paths_differ(f),
        steps == 0 ==> !t.contains_key(f.backup@),
        t.contains_key(f.target@),
        steps <= 2,
    ensures
        restored(replaced(t, f, steps), f).contains_key(f.target@),
        restored(replaced(t, f, steps), f)[f.target@] == t[f.target@],
        steps >= 1 ==> !restored(replaced(t, f, steps), f).contains_key(f.backup@),
{
}

/// What the file at position `j` looks like after the files before position
/// `n` were replaced.
spec fn after_replacing(t0: FileTree, files: Seq<FileUpdate>, n: nat, j: int) -> FileTree {
    if j < n {
        replaced(t0, files[j], 2)
    } else {
        t0
    }
}

proof fn lemma_replace_each(t0: FileTree, files: Seq<FileUpdate>, n: nat)
    requires
        paths_apart(files),
        n <= files.len(),
    ensures
        forall|j: int|
            0 <= j < files.len() ==> same_on(
                #[trigger] replaced_upto(t0, files, n),
                after_replacing(t0, files, n, j),
                files[j],
            ),
    decreases n,
{
    if n > 0 {
        let m = (n - 1) as nat;
        lemma_replace_each(t0, files, m);
        let before = replaced_upto(t0, files, m);
        assert forall|j: int| 0 <= j < files.len() implies same_on(
            #[trigger] replaced_upto(t0, files, n),
            after_replacing(t0, files, n, j),
            files[j],
        ) by {
            assert(same_on(before, after_replacing(t0, files, m, j), files[j]));
            if j == m {
                lemma_own(files, j);
                lemma_local(before, t0, files[j], 2);
            } else {
                lemma_apart(files, m as int, j);
                lemma_frame(before, files[m as int], 2, files[j]);
            }
        }
    }
}

proof fn lemma_restore_each(
    t: FileTree,
    files: Seq<FileUpdate>,
    order: Seq<usize>,
    base: spec_fn(int) -> FileTree,
)
    requires
        paths_apart(files),
        positions_once(order, files.len()),
        forall|j: int| 0 <= j < files.len() ==> same_on(t, #[trigger] base(j), files[j]),
    ensures
        forall|j: int|
            0 <= j < files.len() ==> same_on(
                restored_in_order(t, files, order),
                if lists(order, j) {
                    restored(base(j), files[j])
                } else {
                    base(j)
                },
                #[trigger] files[j],
            ),
    decreases order.len(),
{
    if order.len() > 0 {
        let rest = order.drop_last();
        let last = order.last() as int;
        assert(positions_once(rest, files.len())) by {
            assert forall|k: int, l: int| 0 <= k < l < rest.len() implies #[trigger] rest[k] != #[trigger] rest[l] by {
                assert(rest[k] == order[k] && rest[l] == order[l]);
            }
            assert forall|k: int| 0 <= k < rest.len() implies #[trigger] rest[k] < files.len() by {
                assert(rest[k] == order[k]);
            }
        }
        lemma_restore_each(t, files, rest, base);
        let before = restored_in_order(t, files, rest);
        assert(order[order.len() - 1] < files.len());
        assert forall|j: int| 0 <= j < files.len() implies same_on(
            restored_in_order(t, files, order),
            if lists(order, j) {
                restored(base(j), files[j])
            } else {
                base(j)
            },
            #[trigger] files[j],
        ) by {
            if j == last {
                assert(!lists(rest, j)) by {
                    if lists(rest, j) {
                        let k = choose|k: int| 0 <= k < rest.len() && rest[k] as int == j;
                        assert(order[k] == order[order.len() - 1]);
                    }
                }
                assert(lists(order, j)) by {
                    assert(order[order.len() - 1] as int == j);
                }
                assert(same_on(before, base(j), files[j]));
                lemma_own(files, j);
                lemma_local(before, base(j), files[j], 0);
            } else {
                lemma_apart(files, last, j);
                lemma_frame(before, files[last], 0, files[j]);
                assert(lists(order, j) == lists(rest, j)) by {
                    if lists(order, j) {
                        let k = choose|k: int| 0 <= k < order.len() && order[k] as int == j;
                        assert(k < order.len() - 1);
                        assert(rest[k] as int == j);
                    }
                    if lists(rest, j) {
                        let k = choose|k: int| 0 <= k < rest.len() && rest[k] as int == j;
                        assert(order[k] as int == j);
                    }
                }
            }
        }
    }
}

/// A failed update is rolled back: when replacing the file at position
/// `failed` stops after `steps` of its two moves, restoring that file and the
/// ones replaced before it, newest first (the order `after_replace` gives),
/// puts every file that was installed before the update back with its old
/// content, provided the plan's paths are all different and, when the
/// failing file was not even moved to its backup, that backup did not exist
/// yet. The files after the failing one are left as they were.
pub proof fn law_failed_update_is_rolled_back(
    t0: FileTree,
    files: Seq<FileUpdate>,
    failed: int,
    steps: nat,
)
    requires
        0 <= failed < files.len(),
        files.len() <= usize::MAX,
        steps < 2,
        paths_apart(files),
        steps == 0 ==> !t0.contains_key(files[failed].backup@),
    ensures
        ({
            let applied = replaced(replaced_upto(t0, files, failed as nat), files[failed], steps);
            let rolled_back = restored_in_order(applied, files, newest_first((failed + 1) as nat));
            &&& forall|j: int|
                0 <= j < files.len() && t0.contains_key(#[trigger] files[j].target@)
                    ==> rolled_back.contains_key(files[j].target@) && rolled_back[files[j].target@]
                    == t0[files[j].target@]
            &&& forall|j: int| failed < j < files.len() ==> rolled_back.contains_key(#[trigger] files[j].source@)
                == t0.contains_key(files[j].source@)
        }),
{
    let k = failed as nat;
    let prefix = replaced_upto(t0, files, k);
    let applied = replaced(prefix, files[failed], steps);
    let order = newest_first((failed + 1) as nat);
    let base = |j: int| if j < failed { replaced(t0, files[j], 2) } else if j == failed { replaced(t0, files[j], steps) } else { t0 };
    lemma_replace_each(t0, files, k);
    assert forall|j: int| 0 <= j < files.len() implies same_on(applied, #[trigger] base(j), files[j]) by {
        assert(same_on(prefix, after_replacing(t0, files, k, j), files[j]));
        if j == failed {
            lemma_own(files, j);
            lemma_local(prefix, t0, files[j], steps);
        } else {
            lemma_apart(files, failed, j);
            lemma_frame(prefix, files[failed], steps, files[j]);
        }
    }
    assert(positions_once(order, files.len())) by {
        assert forall|a: int| 0 <= a < order.len() implies #[trigger] order[a] < files.len() by {
            assert(order[a] as int == failed - a);
        }
        assert forall|a: int, b: int| 0 <= a < b < order.len() implies #[trigger] order[a] != #[trigger] order[b] by {
            assert(order[a] as int == failed - a);
            assert(order[b] as int == failed - b);
        }
    }
    lemma_restore_each(applied, files, order, base);
    let rolled_back = restored_in_order(applied, files, order);
    assert forall|j: int| 0 <= j < files.len() implies #[trigger] lists(order, j) == (j <= failed) by {
        if j <= failed {
            assert(order[failed - j] as int == j);
        }
        if lists(order, j) {
            let a = choose|a: int| 0 <= a < order.len() && order[a] as int == j;
            assert(order[a] as int == failed - a);
        }
    }
    assert forall|j: int| 0 <= j < files.len() && t0.contains_key(#[trigger] files[j].target@) implies rolled_back.contains_key(files[j].target@)
        && rolled_back[files[j].target@] == t0[files[j].target@] by {
        lemma_own(files, j);
        assert(lists(order, j) == (j <= failed));
        assert(same_on(rolled_back, if lists(order, j) { restored(base(j), files[j]) } else { base(j) }, files[j]));
        if j <= failed {
            lemma_undo(t0, files[j], if j < failed { 2 } else { steps });
        }
    }
    assert forall|j: int| failed < j < files.len() implies rolled_back.contains_key(#[trigger] files[j].source@)
        == t0.contains_key(files[j].source@) by {
        assert(lists(order, j) == (j <= failed));
        assert(same_on(rolled_back, if lists(order, j) { restored(base(j), files[j]) } else { base(j) }, files[j]));
    }
}

/// A rollback undoes an update: after every file of the plan was replaced,
/// restoring them all (in plan order, as `rollback` does) puts every file
/// that was installed before the update back with its old content and
/// leaves no backup of it behind, provided the plan's paths are all
/// different.
pub proof fn law_rollback_undoes_update(t0: FileTree, files: Seq<FileUpdate>)
    requires
        files.len() <= usize::MAX,
        paths_apart(files),
    ensures
        ({
            let order = Seq::new(files.len(), |i: int| i as usize);
            let rolled_back = restored_in_order(replaced_upto(t0, files, files.len()), files, order);
            forall|j: int|
                0 <= j < files.len() && t0.contains_key(#[trigger] files[j].target@)
                    ==> rolled_back.contains_key(files[j].target@) && rolled_back[files[j].target@]
                    == t0[files[j].target@] && !rolled_back.contains_key(files[j].backup@)
        }),
{
    let n = files.len();
    let order = Seq::new(n, |i: int| i as usize);
    let applied = replaced_upto(t0, files, n);
    let base = |j: int| replaced(t0, files[j], 2);
    lemma_replace_each(t0, files, n);
    assert forall|j: int| 0 <= j < files.len() implies same_on(applied, #[trigger] base(j), files[j]) by {
        assert(same_on(applied, after_replacing(t0, files, n, j), files[j]));
    }
    assert(positions_once(order, n)) by {
        assert forall|a: int| 0 <= a < order.len() implies #[trigger] order[a] < n by {
            assert(order[a] as int == a);
        }
        assert forall|a: int, b: int| 0 <= a < b < order.len() implies #[trigger] order[a] != #[trigger] order[b] by {
            assert(order[a] as int == a);
            assert(order[b] as int == b);
        }
    }
    lemma_restore_each(applied, files, order, base);
    let rolled_back = restored_in_order(applied, files, order);
    assert forall|j: int| 0 <= j < files.len() && t0.contains_key(#[trigger] files[j].target@) implies rolled_back.contains_key(files[j].target@)
        && rolled_back[files[j].target@] == t0[files[j].target@] && !rolled_back.contains_key(files[j].backup@) by {
        lemma_own(files, j);
        assert(order[j] as int == j);
        assert(lists(order, j));
        assert(same_on(rolled_back, restored(base(j), files[j]), files[j]));
        lemma_undo(t0, files[j], 2);
    }
}

} // verus!
