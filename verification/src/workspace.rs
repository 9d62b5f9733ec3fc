//! Choosing the files of a workspace that are to be checked.

use crate::db::{Database, VfsView};
use crate::ids::FileId;
use crate::text::{str_eq, views};
use vstd::prelude::*;

verus! {

/// Whether the path `path` lies under `base`: the components of `base`
/// are the first components of `path`.
pub open spec fn path_starts_with(path: Seq<Seq<char>>, base: Seq<Seq<char>>) -> bool {
    base.is_prefix_of(path)
}

/// Whether the file `id` has a path that lies under `base`.
pub open spec fn in_workspace(vfs: VfsView, id: FileId, base: Seq<Seq<char>>) -> bool {
    match vfs.file_path(id) {
        Some(path) => path_starts_with(path, base),
        None => false,
    }
}

/// Those of the first `n` of `files` whose path lies under `base`, in
/// order.
pub open spec fn files_under(vfs: VfsView, files: Seq<FileId>, base: Seq<Seq<char>>, n: nat) -> Seq<
    FileId,
>
    decreases n,
{
    if n == 0 {
        Seq::empty()
    } else if in_workspace(vfs, files[n - 1], base) {
        files_under(vfs, files, base, (n - 1) as nat).push(files[n - 1])
    } else {
        files_under(vfs, files, base, (n - 1) as nat)
    }
}

/// Whether the path `path` lies under `base`, component by component.
pub fn components_start_with(path: &Vec<String>, base: &Vec<String>) -> (r: bool)
    ensures
        r == path_starts_with(views(path@), views(base@)),
{
    if base.len() > path.len() {
        return false;
    }
    let mut i: usize = 0;
    while i < base.len()
        invariant
            i <= base.len() <= path.len(),
            forall|j: int| 0 <= j < i ==> views(base@)[j] == views(path@)[j],
        decreases base.len() - i,
    {
        if !str_eq(base[i].as_str(), path[i].as_str()) {
            assert(views(base@)[i as int] != views(path@).subrange(0, base.len() as int)[i as int]);
            return false;
        }
        i += 1;
    }
    assert(views(base@) =~= views(path@).subrange(0, base.len() as int));
    true
}

/// The files among `files` that lie under the workspace root, in the
/// order given. Every file has to have a path.
pub fn get_need_check_ids(db: &Database, files: Vec<FileId>, workspace: &Vec<String>) -> (r: Vec<
    FileId,
>)
    requires
        forall|i: int| 0 <= i < files.len() ==> db@.vfs.file_path(#[trigger] files@[i]) is Some,
    ensures
        r@ == files_under(db@.vfs, files@, views(workspace@), files.len() as nat),
{
    let mut need_check_files: Vec<FileId> = Vec::new();
    let mut i: usize = 0;
    while i < files.len()
        invariant
            i <= files.len(),
            forall|j: int| 0 <= j < files.len() ==> db@.vfs.file_path(#[trigger] files@[j]) is Some,
            need_check_files@ == files_under(db@.vfs, files@, views(workspace@), i as nat),
        decreases files.len() - i,
    {
        let file_id = files[i];
        match db.get_vfs().get_file_path(&file_id) {
            Some(file_path) => {
                if components_start_with(file_path, workspace) {
                    need_check_files.push(file_id);
                }
            },
            None => {
                assert(db@.vfs.file_path(files@[i as int]) is Some);
            },
        }
        i += 1;
    }
    need_check_files
}

} // verus!
