//! Abstract model of the directory lifecycle and of mirror synchronization.
//!
//! The binary around this library performs the filesystem and git actions
//! the pipeline emits; these spec functions say what those actions do to an
//! abstract filesystem (a set of directories and a map of file contents)
//! and to an abstract mirror (its refs), and the lemmas state the lifecycle
//! guarantees the pipeline relies on: recreating a directory always yields
//! an empty one and is idempotent, and syncing a mirror against an
//! unchanged remote is idempotent.
use vstd::prelude::*;
use crate::text::path_under;

verus! {

/// An abstract filesystem: the directories that exist, and the contents of
/// the regular files, both keyed by slash-separated absolute paths.
#[verifier::ext_equal]
pub struct FsModel {
    pub dirs: Set<Seq<char>>,
    pub files: Map<Seq<char>, Seq<u8>>,
}

/// Creating a directory and its ancestors; existing entries are untouched.
pub open spec fn ensure_dir_model(fs: FsModel, p: Seq<char>) -> FsModel {
    FsModel {
        dirs: fs.dirs.union(Set::new(|q: Seq<char>| path_under(p, q))),
        files: fs.files,
    }
}

/// Removing a directory's whole subtree if present, then creating it (and
/// its ancestors) afresh.
pub open spec fn recreate_dir_model(fs: FsModel, p: Seq<char>) -> FsModel {
    FsModel {
        dirs: Set::new(
            |q: Seq<char>| (fs.dirs.contains(q) && !path_under(q, p)) || path_under(p, q),
        ),
        files: Map::new(
            |k: Seq<char>| fs.files.contains_key(k) && !path_under(k, p),
            |k: Seq<char>| fs.files[k],
        ),
    }
}

/// `p` exists and nothing lives inside it.
pub open spec fn dir_empty(fs: FsModel, p: Seq<char>) -> bool {
    &&& fs.dirs.contains(p)
    &&& forall|q: Seq<char>| fs.dirs.contains(q) && path_under(q, p) ==> q == p
    &&& forall|k: Seq<char>| fs.files.contains_key(k) ==> !path_under(k, p)
}

/// Ensuring a directory exists is idempotent, and afterwards it exists.
pub proof fn lemma_ensure_dir_idempotent(fs: FsModel, p: Seq<char>)
    ensures
        ensure_dir_model(ensure_dir_model(fs, p), p) == ensure_dir_model(fs, p),
        ensure_dir_model(fs, p).dirs.contains(p),
{
    assert(ensure_dir_model(ensure_dir_model(fs, p), p) =~= ensure_dir_model(fs, p)) by {
        assert(ensure_dir_model(ensure_dir_model(fs, p), p).dirs =~= ensure_dir_model(
            fs,
            p,
        ).dirs);
    }
}

/// Recreating a directory yields an empty directory, and doing it twice in
/// a row yields the same (empty) state as doing it once.
pub proof fn lemma_recreate_dir_idempotent(fs: FsModel, p: Seq<char>)
    ensures
        recreate_dir_model(recreate_dir_model(fs, p), p) == recreate_dir_model(fs, p),
        dir_empty(recreate_dir_model(fs, p), p),
{
    let once = recreate_dir_model(fs, p);
    let twice = recreate_dir_model(once, p);
    assert(twice =~= once) by {
        assert(twice.dirs =~= once.dirs);
        assert(twice.files =~= once.files);
    }
    assert forall|q: Seq<char>| once.dirs.contains(q) && path_under(q, p) implies q == p by {
        if q != p {
            assert(q.len() > p.len());
        }
    }
}

/// The refs a mirror or its upstream repository holds, keyed by name.
pub type RefMap = Map<Seq<char>, Seq<char>>;

/// Which git operation the pipeline chooses: a fresh mirror clone when no
/// mirror exists on disk, otherwise a remote update of the existing one.
/// Mirror existence on disk is the sole signal.
#[derive(Clone, Copy, Debug, PartialEq, Eq, Structural)]
pub enum SyncWay {
    Mirror,
    Update,
}

pub open spec fn sync_decision(mirror_exists: bool) -> SyncWay {
    if mirror_exists {
        SyncWay::Update
    } else {
        SyncWay::Mirror
    }
}

/// What the chosen operation leaves on disk: a clone materializes the
/// remote's refs where no mirror was, a remote update fast-forwards an
/// existing mirror to the remote's refs.
pub open spec fn apply_sync(way: SyncWay, mirror: Option<RefMap>, remote: RefMap) -> Option<
    RefMap,
> {
    match way {
        SyncWay::Mirror => match mirror {
            None => Some(remote),
            Some(m) => Some(m),
        },
        SyncWay::Update => Some(remote),
    }
}

/// The mirror-or-update step against an unchanged remote is idempotent:
/// one pass leaves the mirror holding the remote's refs, and a second pass
/// leaves it in the same state.
pub proof fn lemma_sync_idempotent(mirror: Option<RefMap>, remote: RefMap)
    ensures
        apply_sync(sync_decision(mirror is Some), mirror, remote) == Some(remote),
        apply_sync(
            sync_decision(apply_sync(sync_decision(mirror is Some), mirror, remote) is Some),
            apply_sync(sync_decision(mirror is Some), mirror, remote),
            remote,
        ) == apply_sync(sync_decision(mirror is Some), mirror, remote),
{
}

} // verus!
