use crate::error::RepoError;
use crate::ids::{root_key, FolderId};
use crate::model::{opt_view, Folder, FolderChildren, FolderView, NewFolder, PatchFolder};
use crate::patch::Patch;
use crate::repo::{
    children_of, folder_or_root, same_but_folders, FolderReadRepo, FolderWriteRepo, RepoModel,
};
use crate::record::record_text;
use vstd::prelude::*;

verus! {

/// Failure of a folder operation.
#[derive(Debug)]
pub enum ServiceError {
    /// The repository refused or failed.
    Repo(RepoError),
    /// Another folder under the same parent already has the name.
    DuplicateName,
    /// The folder to move into does not exist.
    TargetNotFound(FolderId),
    /// The folder to move into is the folder itself or lies inside it.
    CycleDetected,
    /// The root folder has no siblings to be renamed among.
    RootRename,
    /// The root folder cannot be deleted.
    RootDelete,
    /// A folder that still holds folders or projects cannot be deleted.
    NotEmpty,
}

impl ServiceError {
    /// Human-readable text of the error.
    pub fn message(&self) -> (r: String)
        ensures
            r@ == self.message_spec(),
    {
        match self {
            ServiceError::Repo(e) => e.message(),
            ServiceError::DuplicateName => "A folder with the same name already exists in this parent folder".to_owned(),
            ServiceError::TargetNotFound(target) => "Target folder with id '".to_owned().concat(
                target.to_wire_string().as_str(),
            ).concat("' not found"),
            ServiceError::CycleDetected => "A folder cannot be moved into itself or into a folder inside it".to_owned(),
            ServiceError::RootRename => "The root folder cannot be renamed".to_owned(),
            ServiceError::RootDelete => "The root folder cannot be deleted".to_owned(),
            ServiceError::NotEmpty => "The folder still holds folders or projects".to_owned(),
        }
    }

    /// Text of the error.
    pub open spec fn message_spec(&self) -> Seq<char> {
        match self {
            ServiceError::Repo(e) => e.message_spec(),
            ServiceError::DuplicateName => "A folder with the same name already exists in this parent folder"@,
            ServiceError::TargetNotFound(target) => "Target folder with id '"@ + record_text(
                "folder"@,
                target@,
            ) + "' not found"@,
            ServiceError::CycleDetected => "A folder cannot be moved into itself or into a folder inside it"@,
            ServiceError::RootRename => "The root folder cannot be renamed"@,
            ServiceError::RootDelete => "The root folder cannot be deleted"@,
            ServiceError::NotEmpty => "The folder still holds folders or projects"@,
        }
    }
}

/// Some folder of `folders` directly under `parent` is called `name`.
pub open spec fn has_child_named(
    folders: Map<Seq<char>, FolderView>,
    parent: Seq<char>,
    name: Seq<char>,
) -> bool {
    exists|k: Seq<char>|
        #[trigger] folders.contains_key(k) && folders[k].parent == Some(parent) && folders[k].name
            == name
}

/// Some folder or project of `m` is directly inside the folder `key`.
pub open spec fn has_children<S: RepoModel + ?Sized>(m: &S, key: Seq<char>) -> bool {
    ||| exists|k: Seq<char>| #[trigger]
        m.folders().contains_key(k) && m.folders()[k].parent == Some(key)
    ||| exists|k: Seq<char>| #[trigger]
        m.projects().contains_key(k) && m.projects()[k].folder == key
}

/// The folder reached from `start` by following `n` parent links of `fs`; `None` once a
/// folder on the way has no parent or is missing.
pub open spec fn ancestor_at(fs: Map<Seq<char>, FolderView>, start: Seq<char>, n: nat) -> Option<Seq<char>>
    decreases n,
{
    if n == 0 {
        Some(start)
    } else {
        match ancestor_at(fs, start, (n - 1) as nat) {
            Some(k) => if fs.contains_key(k) {
                fs[k].parent
            } else {
                None
            },
            None => None,
        }
    }
}

/// The folder `a` is `d` itself or one of its ancestors.
pub open spec fn is_ancestor_or_self(fs: Map<Seq<char>, FolderView>, a: Seq<char>, d: Seq<char>) -> bool {
    exists|n: nat| ancestor_at(fs, d, n) == Some(a)
}

/// Once the parent links run out, they stay out.
proof fn lemma_chain_ends(fs: Map<Seq<char>, FolderView>, start: Seq<char>, n: nat, m: nat)
    requires
        ancestor_at(fs, start, n) is None,
        n <= m,
    ensures
        ancestor_at(fs, start, m) is None,
    decreases m - n,
{
    if m > n {
        lemma_chain_ends(fs, start, n, (m - 1) as nat);
    }
}

/// When the chain comes back to a folder it passed at step `j < n`, it never leaves the
/// first `n` folders.
proof fn lemma_chain_repeats(fs: Map<Seq<char>, FolderView>, start: Seq<char>, n: nat, j: nat, m: nat)
    requires
        j < n,
        ancestor_at(fs, start, n) == ancestor_at(fs, start, j),
    ensures
        exists|i: nat| i < n && ancestor_at(fs, start, m) == ancestor_at(fs, start, i),
    decreases m,
{
    if m < n {
        assert(ancestor_at(fs, start, m) == ancestor_at(fs, start, m));
    } else {
        lemma_chain_repeats(fs, start, n, j, (m - 1) as nat);
        let i = choose|i: nat| i < n && ancestor_at(fs, start, (m - 1) as nat) == #[trigger] ancestor_at(fs, start, i);
        assert(ancestor_at(fs, start, m) == ancestor_at(fs, start, i + 1));
        if i + 1 < n {
            assert(ancestor_at(fs, start, m) == ancestor_at(fs, start, (i + 1) as nat));
        } else {
            assert(ancestor_at(fs, start, m) == ancestor_at(fs, start, j));
        }
    }
}

/// Distinct keys drawn from a finite set are no more than its size.
proof fn lemma_distinct_within(s: Seq<Seq<char>>, d: Set<Seq<char>>)
    requires
        d.finite(),
        s.no_duplicates(),
        forall|i: int| 0 <= i < s.len() ==> d.contains(#[trigger] s[i]),
    ensures
        s.len() <= d.len(),
{
    s.unique_seq_to_set();
    assert(s.to_set().subset_of(d));
    vstd::set_lib::lemma_len_subset(s.to_set(), d);
}

/// Position of `id` among `ids`.
fn position_of(ids: &Vec<FolderId>, id: &FolderId) -> (r: Option<usize>)
    ensures
        match r {
            Some(j) => j < ids@.len() && ids@[j as int]@ == id@,
            None => forall|j: int| 0 <= j < ids@.len() ==> #[trigger] ids@[j]@ != id@,
        },
{
    let mut j: usize = 0;
    while j < ids.len()
        invariant
            j <= ids@.len(),
            forall|i: int| 0 <= i < j ==> #[trigger] ids@[i]@ != id@,
        decreases ids@.len() - j,
    {
        if ids[j].eq(id) {
            return Some(j);
        }
        j = j + 1;
    }
    None
}

/// Whether the folder `ancestor` is `start` itself or one of its ancestors. The walk
/// follows parent links until it meets `ancestor`, a folder without a parent, a missing
/// folder, or a folder it has passed before.
fn is_within<S: FolderReadRepo>(store: &S, start: &FolderId, ancestor: &FolderId) -> (r: Result<bool, RepoError>)
    requires
        store.well_formed(),
        store.folders().dom().finite(),
    ensures
        match r {
            Ok(b) => b == is_ancestor_or_self(store.folders(), ancestor@, start@),
            Err(e) => e is DbError,
        },
        store.never_fails() ==> r is Ok,
{
    let ghost fs = store.folders();
    let mut cur = start.clone();
    let mut seen: Vec<FolderId> = Vec::new();
    loop
        invariant
            store.well_formed(),
            fs == store.folders(),
            fs.dom().finite(),
            ancestor_at(fs, start@, seen@.len() as nat) == Some(cur@),
            forall|i: int| 0 <= i < seen@.len() ==> ancestor_at(fs, start@, i as nat) == Some(#[trigger] seen@[i]@),
            forall|i: int| 0 <= i < seen@.len() ==> #[trigger] seen@[i]@ != ancestor@ && fs.contains_key(seen@[i]@),
            forall|i: int, j: int| 0 <= i < j < seen@.len() ==> seen@[i]@ != seen@[j]@,
            seen@.len() <= fs.dom().len(),
        decreases fs.dom().len() - seen@.len(),
    {
        let ghost n = seen@.len() as nat;
        if cur.eq(ancestor) {
            return Ok(true);
        }
        match position_of(&seen, &cur) {
            Some(j) => {
                proof {
                    assert(ancestor_at(fs, start@, n) == ancestor_at(fs, start@, j as nat));
                    assert forall|m: nat| ancestor_at(fs, start@, m) != Some(ancestor@) by {
                        lemma_chain_repeats(fs, start@, n, j as nat, m);
                        let i = choose|i: nat| i < n && ancestor_at(fs, start@, m) == #[trigger] ancestor_at(fs, start@, i);
                        assert(seen@[i as int]@ != ancestor@);
                    }
                }
                return Ok(false);
            },
            None => {},
        }
        let parent = match store.get_folder_metadata(&cur) {
            Ok(f) => f.parent,
            Err(RepoError::NotFound) => None,
            Err(e) => return Err(e),
        };
        match parent {
            Some(p) => {
                proof {
                    let keys = seen@.push(cur).map_values(|f: FolderId| f@);
                    assert forall|a: int, b: int| 0 <= a < keys.len() && 0 <= b < keys.len() && a != b implies keys[a] != keys[b] by {
                        if a < n && b < n {
                            if a < b {
                                assert(seen@[a]@ != seen@[b]@);
                            } else {
                                assert(seen@[b]@ != seen@[a]@);
                            }
                        }
                    }
                    assert forall|i: int| 0 <= i < keys.len() implies fs.dom().contains(#[trigger] keys[i]) by {
                        if i < n {
                            assert(keys[i] == seen@[i]@);
                        }
                    }
                    lemma_distinct_within(keys, fs.dom());
                    assert(ancestor_at(fs, start@, n + 1) == Some(p@));
                }
                seen.push(cur);
                cur = p;
            },
            None => {
                proof {
                    assert(ancestor_at(fs, start@, n + 1) is None);
                    assert forall|m: nat| ancestor_at(fs, start@, m) != Some(ancestor@) by {
                        if m < n {
                            assert(seen@[m as int]@ != ancestor@);
                        } else if m > n {
                            lemma_chain_ends(fs, start@, n + 1, m);
                        }
                    }
                }
                return Ok(false);
            },
        }
    }
}

/// `r` is the outcome of renaming the folder `key` of `before` to `name`, and `after` what
/// the store holds then. A rename to the current name writes nothing.
pub open spec fn renamed<S: RepoModel + ?Sized>(
    r: Result<Folder, ServiceError>,
    before: &S,
    after: &S,
    key: Seq<char>,
    name: Seq<char>,
) -> bool {
    let fs = before.folders();
    let f = fs[key];
    &&& same_but_folders(after, before)
    &&& match r {
        Ok(x) => fs.contains_key(key) && if f.name == name {
            x@ == f && after.folders() == fs
        } else {
            &&& f.parent is Some
            &&& fs.contains_key(f.parent->0)
            &&& !has_child_named(fs, f.parent->0, name)
            &&& x@ == FolderView { id: key, name, parent: f.parent }
            &&& after.folders() == fs.insert(key, x@)
        },
        Err(ServiceError::Repo(RepoError::NotFound)) => after.folders() == fs && (!fs.contains_key(
            key,
        ) || (f.name != name && f.parent is Some && !fs.contains_key(f.parent->0))),
        Err(ServiceError::RootRename) => after.folders() == fs && fs.contains_key(key) && f.name
            != name && f.parent is None,
        Err(ServiceError::DuplicateName) => after.folders() == fs && fs.contains_key(key) && f.name
            != name && f.parent is Some && has_child_named(fs, f.parent->0, name),
        Err(ServiceError::Repo(RepoError::DbError(_))) => after.folders() == fs,
        Err(_) => false,
    }
}

/// `r` is the outcome of moving the folder `key` of `before` into the folder `target`,
/// and `after` what the store holds then. A move into the current parent writes nothing;
/// a move into the folder itself or into a folder inside it is refused.
pub open spec fn moved<S: RepoModel + ?Sized>(
    r: Result<Folder, ServiceError>,
    before: &S,
    after: &S,
    key: Seq<char>,
    target: Seq<char>,
) -> bool {
    let fs = before.folders();
    let f = fs[key];
    &&& same_but_folders(after, before)
    &&& match r {
        Ok(x) => fs.contains_key(target) && fs.contains_key(key) && if f.parent == Some(target) {
            x@ == f && after.folders() == fs
        } else {
            &&& !is_ancestor_or_self(fs, key, target)
            &&& x@ == FolderView { id: key, name: f.name, parent: Some(target) }
            &&& after.folders() == fs.insert(key, x@)
        },
        Err(ServiceError::CycleDetected) => fs.contains_key(target) && fs.contains_key(key)
            && f.parent != Some(target) && is_ancestor_or_self(fs, key, target) && after.folders()
            == fs,
        Err(ServiceError::TargetNotFound(t)) => t@ == target && !fs.contains_key(target)
            && after.folders() == fs,
        Err(ServiceError::Repo(RepoError::NotFound)) => fs.contains_key(target) && !fs.contains_key(
            key,
        ) && after.folders() == fs,
        Err(ServiceError::Repo(RepoError::DbError(_))) => after.folders() == fs,
        Err(_) => false,
    }
}

/// `r` is the outcome of deleting the folder `key` of `before`, and `after` what the
/// store holds then. Only a folder that holds nothing, and is not the root, goes.
pub open spec fn folder_deleted<S: RepoModel + ?Sized>(
    r: Result<(), ServiceError>,
    before: &S,
    after: &S,
    key: Seq<char>,
) -> bool {
    let fs = before.folders();
    &&& same_but_folders(after, before)
    &&& match r {
        Ok(_) => key != root_key() && fs.contains_key(key) && !has_children(before, key)
            && after.folders() == fs.remove(key),
        Err(ServiceError::RootDelete) => key == root_key() && after.folders() == fs,
        Err(ServiceError::NotEmpty) => key != root_key() && fs.contains_key(key) && has_children(
            before,
            key,
        ) && after.folders() == fs,
        Err(ServiceError::Repo(RepoError::NotFound)) => key != root_key() && !fs.contains_key(key)
            && after.folders() == fs,
        Err(ServiceError::Repo(RepoError::DbError(_))) => after.folders() == fs,
        Err(_) => false,
    }
}

/// Whether a folder of `folders` is called `name`.
fn any_named(folders: &Vec<Folder>, name: &String) -> (r: bool)
    ensures
        r == exists|j: int| 0 <= j < folders@.len() && #[trigger] folders@[j].name@ == name@,
{
    let mut i: usize = 0;
    while i < folders.len()
        invariant
            i <= folders@.len(),
            forall|j: int| 0 <= j < i ==> #[trigger] folders@[j].name@ != name@,
        decreases folders@.len() - i,
    {
        if folders[i].name.eq(name) {
            return true;
        }
        i = i + 1;
    }
    false
}

/// The folder `id`.
pub fn get_folder_metadata<S: FolderReadRepo>(store: &S, id: &FolderId) -> (r: Result<Folder, ServiceError>)
    requires
        store.well_formed(),
    ensures
        match r {
            Ok(f) => store.folders().contains_key(id@) && f@ == store.folders()[id@],
            Err(ServiceError::Repo(RepoError::NotFound)) => !store.folders().contains_key(id@),
            Err(ServiceError::Repo(RepoError::DbError(_))) => true,
            Err(_) => false,
        },
        store.never_fails() ==> !(r matches Err(ServiceError::Repo(RepoError::DbError(_)))),
{
    match store.get_folder_metadata(id) {
        Ok(f) => Ok(f),
        Err(e) => Err(ServiceError::Repo(e)),
    }
}

/// The folders and projects directly inside the folder `id`.
pub fn get_folder_children<S: FolderReadRepo>(store: &S, id: &FolderId) -> (r: Result<FolderChildren, ServiceError>)
    requires
        store.well_formed(),
    ensures
        match r {
            Ok(c) => store.folders().contains_key(id@) && children_of(c@, store, id@),
            Err(ServiceError::Repo(RepoError::NotFound)) => !store.folders().contains_key(id@),
            Err(ServiceError::Repo(RepoError::DbError(_))) => true,
            Err(_) => false,
        },
        store.never_fails() ==> !(r matches Err(ServiceError::Repo(RepoError::DbError(_)))),
{
    match store.get_folder_children(id) {
        Ok(c) => Ok(c),
        Err(e) => Err(ServiceError::Repo(e)),
    }
}

/// Creates a folder; without a parent it goes under the root.
pub fn new_folder<S: FolderWriteRepo>(store: &mut S, new: NewFolder) -> (r: Result<Folder, ServiceError>)
    requires
        old(store).well_formed(),
    ensures
        final(store).well_formed(),
        same_but_folders(final(store), old(store)),
        match r {
            Ok(f) => {
                &&& !old(store).folders().contains_key(f@.id)
                &&& f@ == FolderView {
                    id: f@.id,
                    name: new.name@,
                    parent: Some(folder_or_root(opt_view(new.parent))),
                }
                &&& final(store).folders() == old(store).folders().insert(f@.id, f@)
            },
            Err(ServiceError::Repo(RepoError::DbError(_))) => final(store).folders() == old(
                store,
            ).folders(),
            Err(_) => false,
        },
{
    match store.create_folder(new) {
        Ok(f) => Ok(f),
        Err(e) => Err(ServiceError::Repo(e)),
    }
}

/// Renames the folder `id`. Renaming to the current name returns the folder and writes
/// nothing; a name that a sibling folder already has is refused.
pub fn rename_folder<S: FolderWriteRepo>(store: &mut S, id: &FolderId, name: String) -> (r: Result<Folder, ServiceError>)
    requires
        old(store).well_formed(),
    ensures
        final(store).well_formed(),
        renamed(r, old(store), final(store), id@, name@),
        old(store).never_fails() ==> !(r matches Err(ServiceError::Repo(RepoError::DbError(_)))),
{
    let folder = match store.get_folder_metadata(id) {
        Ok(f) => f,
        Err(e) => return Err(ServiceError::Repo(e)),
    };
    if folder.name.eq(&name) {
        return Ok(folder);
    }
    let parent = match &folder.parent {
        Some(p) => p,
        None => return Err(ServiceError::RootRename),
    };
    let peers = match store.get_folder_children(parent) {
        Ok(c) => c,
        Err(e) => return Err(ServiceError::Repo(e)),
    };
    let ghost fs = store.folders();
    let ghost v = peers@.folders;
    if any_named(&peers.folders, &name) {
        proof {
            let j = choose|j: int| 0 <= j < peers.folders@.len() && #[trigger] peers.folders@[j].name@ == name@;
            assert(v[j] == peers.folders@[j]@);
            assert(fs.contains_key(v[j].id));
        }
        return Err(ServiceError::DuplicateName);
    }
    proof {
        assert forall|k: Seq<char>| #[trigger]
            fs.contains_key(k) && fs[k].parent == Some(parent@) implies fs[k].name != name@ by {
            let j = choose|j: int| 0 <= j < v.len() && #[trigger] v[j].id == k;
            assert(v[j] == peers.folders@[j]@);
        }
    }
    let patch = PatchFolder { name: Patch::SetTo(name), parent: Patch::Ignore };
    match store.update_folder(id, patch) {
        Ok(f) => Ok(f),
        Err(e) => Err(ServiceError::Repo(e)),
    }
}

/// Moves the folder `id` into the folder `target_id`, which must exist. Moving it into its
/// current parent returns it and writes nothing; moving it into itself or into a folder
/// inside it is refused, so that no move closes a loop of parents.
pub fn move_folder<S: FolderWriteRepo>(store: &mut S, id: &FolderId, target_id: &FolderId) -> (r: Result<Folder, ServiceError>)
    requires
        old(store).well_formed(),
    ensures
        final(store).well_formed(),
        moved(r, old(store), final(store), id@, target_id@),
        old(store).never_fails() ==> !(r matches Err(ServiceError::Repo(RepoError::DbError(_)))),
{
    match store.get_folder_metadata(target_id) {
        Ok(_) => {},
        Err(RepoError::NotFound) => return Err(ServiceError::TargetNotFound(target_id.clone())),
        Err(e) => return Err(ServiceError::Repo(e)),
    }
    let folder = match store.get_folder_metadata(id) {
        Ok(f) => f,
        Err(e) => return Err(ServiceError::Repo(e)),
    };
    let in_target = match &folder.parent {
        Some(p) => p.eq(target_id),
        None => false,
    };
    if in_target {
        return Ok(folder);
    }
    match is_within(&*store, target_id, id) {
        Ok(true) => return Err(ServiceError::CycleDetected),
        Ok(false) => {},
        Err(e) => return Err(ServiceError::Repo(e)),
    }
    let patch = PatchFolder { name: Patch::Ignore, parent: Patch::SetTo(target_id.clone()) };
    match store.update_folder(id, patch) {
        Ok(f) => Ok(f),
        Err(e) => Err(ServiceError::Repo(e)),
    }
}

/// Deletes the folder `id` when it holds no folder and no project; the root stays.
pub fn delete_folder<S: FolderWriteRepo>(store: &mut S, id: &FolderId) -> (r: Result<(), ServiceError>)
    requires
        old(store).well_formed(),
    ensures
        final(store).well_formed(),
        folder_deleted(r, old(store), final(store), id@),
        old(store).never_fails() ==> !(r matches Err(ServiceError::Repo(RepoError::DbError(_)))),
{
    if id.eq(&FolderId::root()) {
        return Err(ServiceError::RootDelete);
    }
    let children = match store.get_folder_children(id) {
        Ok(c) => c,
        Err(e) => return Err(ServiceError::Repo(e)),
    };
    let ghost v = children@;
    if children.folders.len() > 0 || children.projects.len() > 0 {
        proof {
            if children.folders.len() > 0 {
                assert(v.folders[0] == children.folders@[0]@);
                assert(store.folders().contains_key(v.folders[0].id));
            } else {
                assert(v.projects[0] == children.projects@[0]@);
                assert(store.projects().contains_key(v.projects[0].id));
            }
        }
        return Err(ServiceError::NotEmpty);
    }
    proof {
        assert(!has_children(store, id@));
    }
    match store.delete_folder(id) {
        Ok(()) => Ok(()),
        Err(e) => Err(ServiceError::Repo(e)),
    }
}

} // verus!
