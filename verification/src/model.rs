//! A model of the filesystem state the workspace plans act on, and the
//! laws of the setup/cleanup protocol.
//!
//! The model is a map from a path to a node: `None` for a directory,
//! `Some(bytes)` for a file with those contents. It is deliberately
//! coarse — ancestors that `CreateDirAll` would create along the way, and
//! permissions, are not tracked — but it is exact about which paths a plan
//! touches: setup writes only the workspace directory and paths beneath
//! it, and cleanup removes exactly the workspace directory and everything
//! beneath it. The two laws at the end state the protocol's guarantees:
//! a successful setup followed by cleanup restores the original state, and
//! cleanup without a prior setup fails and changes nothing.

use vstd::prelude::*;

use crate::archive::gunzip_of;
use crate::archive::tar_entries_of;
use crate::workspace::FsAction;
use crate::workspace::archive_file_name;
use crate::workspace::is_cleanup_plan;
use crate::workspace::is_setup_plan;
use crate::workspace::workspace_dir_spec;

verus! {

/// Whether `path` is `root` itself or lies beneath it.
pub open spec fn under(root: Seq<char>, path: Seq<char>) -> bool {
    ||| path == root
    ||| (path.len() > root.len() && path.subrange(0, root.len() as int) == root
        && path[root.len() as int] == '/')
}

/// The path of an entry named `name` placed beneath `dest`.
pub open spec fn entry_target(dest: Seq<char>, name: Seq<char>) -> Seq<char> {
    dest + "/"@ + name
}

/// The tar header type byte that marks a directory: ASCII digit five.
pub open spec fn tar_dir_type_byte() -> u8 {
    53
}

/// The node an archive entry becomes: a directory for the tar directory
/// type byte, a file with the entry's contents otherwise.
pub open spec fn entry_node(e: (Seq<char>, u8, Seq<u8>)) -> Option<Seq<u8>> {
    if e.1 == tar_dir_type_byte() {
        None
    } else {
        Some(e.2)
    }
}

/// Writes the archive entries `es`, in order, beneath `dest`.
pub open spec fn apply_entries(
    fs: Map<Seq<char>, Option<Seq<u8>>>,
    dest: Seq<char>,
    es: Seq<(Seq<char>, u8, Seq<u8>)>,
) -> Map<Seq<char>, Option<Seq<u8>>>
    decreases es.len(),
{
    if es.len() == 0 {
        fs
    } else {
        apply_entries(
            fs.insert(entry_target(dest, es[0].0), entry_node(es[0])),
            dest,
            es.drop_first(),
        )
    }
}

/// What one action does to the filesystem: the new state on success,
/// `None` where the action fails and the state is unchanged.
pub open spec fn apply_action(
    fs: Map<Seq<char>, Option<Seq<u8>>>,
    a: FsAction,
) -> Option<Map<Seq<char>, Option<Seq<u8>>>> {
    match a {
        FsAction::CreateDirAll { path } => Some(fs.insert(path@, None)),
        FsAction::CopyFile { from, to } => {
            if fs.dom().contains(from@) && fs[from@] is Some {
                Some(fs.insert(to@, fs[from@]))
            } else {
                None
            }
        },
        FsAction::UnpackArchive { archive, dest } => {
            if fs.dom().contains(archive@) {
                match fs[archive@] {
                    None => None,
                    Some(bytes) => match gunzip_of(bytes) {
                        None => None,
                        Some(t) => match tar_entries_of(t) {
                            None => None,
                            Some(es) => Some(apply_entries(fs, dest@, es)),
                        },
                    },
                }
            } else {
                None
            }
        },
        FsAction::RemoveDirAll { path } => {
            if fs.dom().contains(path@) {
                Some(
                    Map::new(
                        |k: Seq<char>| fs.dom().contains(k) && !under(path@, k),
                        |k: Seq<char>| fs[k],
                    ),
                )
            } else {
                None
            }
        },
    }
}

/// Runs a plan in order, stopping at the first failing action.
pub open spec fn apply_plan(
    fs: Map<Seq<char>, Option<Seq<u8>>>,
    plan: Seq<FsAction>,
) -> Option<Map<Seq<char>, Option<Seq<u8>>>>
    decreases plan.len(),
{
    if plan.len() == 0 {
        Some(fs)
    } else {
        match apply_action(fs, plan[0]) {
            None => None,
            Some(fs1) => apply_plan(fs1, plan.drop_first()),
        }
    }
}

/// A child placed beneath `dest` lies beneath `dest`.
proof fn lemma_under_child(root: Seq<char>, name: Seq<char>)
    ensures
        under(root, entry_target(root, name)),
        entry_target(root, name).len() > root.len(),
{
    reveal_strlit("/");
    let t = entry_target(root, name);
    assert(t.len() == root.len() + 1 + name.len());
    assert forall|i: int| 0 <= i < root.len() implies t[i] == root[i] by {}
    assert(t.subrange(0, root.len() as int) =~= root);
    assert(t[root.len() as int] == '/');
}

/// Writing archive entries beneath `dest` touches only paths beneath
/// `dest`: every other path keeps its presence and its node, and no
/// present path disappears.
proof fn lemma_apply_entries_frame(
    fs: Map<Seq<char>, Option<Seq<u8>>>,
    dest: Seq<char>,
    es: Seq<(Seq<char>, u8, Seq<u8>)>,
)
    ensures
        forall|k: Seq<char>| !under(dest, k) ==> (#[trigger] apply_entries(
            fs,
            dest,
            es,
        ).dom().contains(k) <==> fs.dom().contains(k)),
        forall|k: Seq<char>| !under(dest, k) && fs.dom().contains(k) ==> #[trigger] apply_entries(
            fs,
            dest,
            es,
        )[k] == fs[k],
        forall|k: Seq<char>|
            fs.dom().contains(k) ==> #[trigger] apply_entries(fs, dest, es).dom().contains(k),
    decreases es.len(),
{
    if es.len() > 0 {
        let t = entry_target(dest, es[0].0);
        let f1 = fs.insert(t, entry_node(es[0]));
        lemma_under_child(dest, es[0].0);
        lemma_apply_entries_frame(f1, dest, es.drop_first());
        assert(apply_entries(fs, dest, es) == apply_entries(f1, dest, es.drop_first()));
    }
}

/// Cleanup reverses setup: where the filesystem holds nothing beneath the
/// workspace directory and setup succeeds, running cleanup afterwards
/// restores exactly the state before setup.
pub proof fn lemma_cleanup_reverses_setup(
    fs: Map<Seq<char>, Option<Seq<u8>>>,
    setup: Seq<FsAction>,
    cleanup: Seq<FsAction>,
    project: Seq<char>,
    fs_after: Map<Seq<char>, Option<Seq<u8>>>,
)
    requires
        is_setup_plan(setup, project),
        is_cleanup_plan(cleanup, project),
        forall|k: Seq<char>| #[trigger]
            fs.dom().contains(k) ==> !under(workspace_dir_spec(project), k),
        apply_plan(fs, setup) == Some(fs_after),
    ensures
        apply_plan(fs_after, cleanup) == Some(fs),
{
    let ws = workspace_dir_spec(project);
    let src = archive_file_name();
    let f1 = fs.insert(ws, None);
    assert(apply_action(fs, setup[0]) == Some(f1));
    assert(apply_plan(fs, setup) == apply_plan(f1, setup.drop_first()));
    assert(setup.drop_first()[0] == setup[1]);
    if !(f1.dom().contains(src) && f1[src] is Some) {
        assert(apply_action(f1, setup[1]) is None);
        assert(false);
    }
    let v = f1[src];
    let cp = match setup[1] {
        FsAction::CopyFile { from, to } => to@,
        _ => arbitrary(),
    };
    let f2 = f1.insert(cp, v);
    assert(apply_action(f1, setup[1]) == Some(f2));
    assert(apply_plan(f1, setup.drop_first()) == apply_plan(f2, setup.drop_first().drop_first()));
    assert(setup.drop_first().drop_first()[0] == setup[2]);
    assert(under(ws, cp)) by {
        lemma_under_child(ws, src);
    }
    // The unpack step reads the copied archive and writes the entries.
    assert(f2.dom().contains(cp) && f2[cp] == v);
    let bytes = v->0;
    if gunzip_of(bytes) is None {
        assert(apply_action(f2, setup[2]) is None);
        assert(false);
    }
    let t = gunzip_of(bytes)->0;
    if tar_entries_of(t) is None {
        assert(apply_action(f2, setup[2]) is None);
        assert(false);
    }
    let es = tar_entries_of(t)->0;
    let f3 = apply_entries(f2, ws, es);
    assert(apply_action(f2, setup[2]) == Some(f3));
    assert(apply_plan(f2, setup.drop_first().drop_first()) == apply_plan(
        f3,
        setup.drop_first().drop_first().drop_first(),
    ));
    assert(setup.drop_first().drop_first().drop_first().len() == 0);
    assert(fs_after == f3);
    lemma_apply_entries_frame(f2, ws, es);
    // The workspace directory exists after setup, so removal succeeds.
    assert(f2.dom().contains(ws));
    assert(fs_after.dom().contains(ws));
    // Removal takes away exactly what setup and unpacking added.
    let removed = Map::new(
        |k: Seq<char>| fs_after.dom().contains(k) && !under(ws, k),
        |k: Seq<char>| fs_after[k],
    );
    assert forall|k: Seq<char>| #[trigger] removed.dom().contains(k) implies fs.dom().contains(k)
        && removed[k] == fs[k] by {
        assert(!under(ws, k));
        assert(k != ws && k != cp);
        assert(f2.dom().contains(k));
        assert(fs.dom().contains(k));
        assert(fs_after[k] == f2[k]);
        assert(f2[k] == fs[k]);
    }
    assert forall|k: Seq<char>| #[trigger] fs.dom().contains(k) implies removed.dom().contains(
        k,
    ) by {
        assert(!under(ws, k));
        assert(f2.dom().contains(k));
        assert(fs_after.dom().contains(k));
    }
    assert(removed =~= fs);
    assert(apply_action(fs_after, cleanup[0]) == Some(removed));
    assert(apply_plan(fs_after, cleanup) == apply_plan(removed, cleanup.drop_first()));
    assert(cleanup.drop_first().len() == 0);
}

/// Cleanup without a prior setup fails: where the workspace directory
/// does not exist, the removal reports an error and the model leaves the
/// state unchanged.
pub proof fn lemma_cleanup_without_setup(
    fs: Map<Seq<char>, Option<Seq<u8>>>,
    cleanup: Seq<FsAction>,
    project: Seq<char>,
)
    requires
        is_cleanup_plan(cleanup, project),
        !fs.dom().contains(workspace_dir_spec(project)),
    ensures
        apply_plan(fs, cleanup) is None,
{
    assert(apply_action(fs, cleanup[0]) is None);
}

} // verus!
