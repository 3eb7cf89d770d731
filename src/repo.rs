use crate::error::RepoError;
use crate::ids::{root_key, FolderId, ListId, ProjectId, TagId};
use crate::model::{
    opt_view, Folder, FolderChildren, FolderChildrenView, FolderView, List, ListView, NewFolder,
    NewList, NewProject, NewTag, PatchFolder, PatchList, PatchProject, Project, ProjectView, Tag,
    TagView, UpdateTag,
};
use crate::patch::Patch;
use vstd::prelude::*;

verus! {

/// What a backend holds, table by table, each record under its key. A backend that
/// does not describe its tables keeps the defaults, and verified code cannot call it:
/// it is never well formed.
pub trait RepoModel {
    open spec fn folders(&self) -> Map<Seq<char>, FolderView> {
        Map::empty()
    }

    open spec fn projects(&self) -> Map<Seq<char>, ProjectView> {
        Map::empty()
    }

    open spec fn lists(&self) -> Map<Seq<char>, ListView> {
        Map::empty()
    }

    open spec fn tags(&self) -> Map<Seq<char>, TagView> {
        Map::empty()
    }

    /// The backend is usable.
    open spec fn well_formed(&self) -> bool {
        false
    }

    /// The backend never fails on its own: what it holds decides every outcome.
    open spec fn never_fails(&self) -> bool {
        false
    }
}

/// The backend failed on its own; nothing is promised of such an outcome but that it
/// changed nothing.
pub open spec fn backend_failed<T>(r: Result<T, RepoError>) -> bool {
    r matches Err(RepoError::DbError(_))
}

/// `r` is the outcome of looking `key` up in `table`.
pub open spec fn found<T: View>(r: Result<T, RepoError>, table: Map<Seq<char>, T::V>, key: Seq<char>) -> bool {
    match r {
        Ok(x) => table.contains_key(key) && x@ == table[key],
        Err(RepoError::NotFound) => !table.contains_key(key),
        Err(RepoError::DbError(_)) => true,
        Err(_) => false,
    }
}

/// `r` is the outcome of adding `made`, under a key not in use before, to `before`.
pub open spec fn created<T: View>(
    r: Result<T, RepoError>,
    before: Map<Seq<char>, T::V>,
    after: Map<Seq<char>, T::V>,
    key_of: spec_fn(T::V) -> Seq<char>,
    made: spec_fn(Seq<char>) -> T::V,
) -> bool {
    match r {
        Ok(x) => {
            &&& !before.contains_key(key_of(x@))
            &&& x@ == made(key_of(x@))
            &&& after == before.insert(key_of(x@), x@)
        },
        Err(RepoError::DbError(_)) => after == before,
        Err(_) => false,
    }
}

/// `r` is the outcome of an update of `key` that is `invalid` when it asks to null a field
/// that cannot be null, `empty` when it changes no field, and that gives `patched` otherwise.
pub open spec fn updated<T: View>(
    r: Result<T, RepoError>,
    invalid: bool,
    empty: bool,
    before: Map<Seq<char>, T::V>,
    after: Map<Seq<char>, T::V>,
    key: Seq<char>,
    patched: T::V,
) -> bool {
    match r {
        Ok(x) => {
            &&& !invalid && !empty
            &&& before.contains_key(key)
            &&& x@ == patched
            &&& after == before.insert(key, patched)
        },
        Err(RepoError::InvalidInput(_)) => invalid && after == before,
        Err(RepoError::NoOp) => !invalid && empty && after == before,
        Err(RepoError::NotFound) => !invalid && !empty && !before.contains_key(key) && after
            == before,
        Err(RepoError::DbError(_)) => !invalid && !empty && after == before,
    }
}

/// `r` is the outcome of deleting `key` from `before`.
pub open spec fn deleted<V>(
    r: Result<(), RepoError>,
    before: Map<Seq<char>, V>,
    after: Map<Seq<char>, V>,
    key: Seq<char>,
) -> bool {
    match r {
        Ok(_) => before.contains_key(key) && after == before.remove(key),
        Err(RepoError::NotFound) => !before.contains_key(key) && after == before,
        Err(RepoError::DbError(_)) => after == before,
        Err(_) => false,
    }
}

/// The folder key that a requested containing folder stands for: the root when none.
pub open spec fn folder_or_root(requested: Option<Seq<char>>) -> Seq<char> {
    match requested {
        Some(k) => k,
        None => root_key(),
    }
}

/// The folder that a new folder or project goes into: the one asked for, else the root.
pub fn containing_folder(requested: Option<FolderId>) -> (r: FolderId)
    ensures
        r@ == folder_or_root(opt_view(requested)),
{
    match requested {
        Some(f) => f,
        None => FolderId::root(),
    }
}

/// Key of a folder view.
pub open spec fn folder_key(f: FolderView) -> Seq<char> {
    f.id
}

/// Key of a project view.
pub open spec fn project_key(p: ProjectView) -> Seq<char> {
    p.id
}

/// Key of a list view.
pub open spec fn list_key(l: ListView) -> Seq<char> {
    l.id
}

/// Key of a tag view.
pub open spec fn tag_key(t: TagView) -> Seq<char> {
    t.id
}

/// `s` lists each folder of `table` whose parent is `parent` once, and nothing else.
pub open spec fn exactly_child_folders(
    s: Seq<FolderView>,
    table: Map<Seq<char>, FolderView>,
    parent: Seq<char>,
) -> bool {
    &&& forall|i: int|
        0 <= i < s.len() ==> table.contains_key(#[trigger] s[i].id) && table[s[i].id] == s[i]
            && s[i].parent == Some(parent)
    &&& forall|k: Seq<char>|
        #[trigger] table.contains_key(k) && table[k].parent == Some(parent) ==> exists|i: int|
            0 <= i < s.len() && #[trigger] s[i].id == k
    &&& forall|i: int, j: int| 0 <= i < j < s.len() ==> s[i].id != s[j].id
}

/// `s` lists each project of `table` whose folder is `folder` once, and nothing else.
pub open spec fn exactly_child_projects(
    s: Seq<ProjectView>,
    table: Map<Seq<char>, ProjectView>,
    folder: Seq<char>,
) -> bool {
    &&& forall|i: int|
        0 <= i < s.len() ==> table.contains_key(#[trigger] s[i].id) && table[s[i].id] == s[i]
            && s[i].folder == folder
    &&& forall|k: Seq<char>|
        #[trigger] table.contains_key(k) && table[k].folder == folder ==> exists|i: int|
            0 <= i < s.len() && #[trigger] s[i].id == k
    &&& forall|i: int, j: int| 0 <= i < j < s.len() ==> s[i].id != s[j].id
}

/// `c` holds exactly the folders and projects of `m` whose containing folder is `key`.
pub open spec fn children_of<R: RepoModel + ?Sized>(c: FolderChildrenView, m: &R, key: Seq<char>) -> bool {
    &&& exactly_child_folders(c.folders, m.folders(), key)
    &&& exactly_child_projects(c.projects, m.projects(), key)
}

/// `a` and `b` hold the same records outside the folder table.
pub open spec fn same_but_folders<R: RepoModel + ?Sized>(a: &R, b: &R) -> bool {
    &&& a.projects() == b.projects()
    &&& a.lists() == b.lists()
    &&& a.tags() == b.tags()
}

/// `a` and `b` hold the same records outside the project table.
pub open spec fn same_but_projects<R: RepoModel + ?Sized>(a: &R, b: &R) -> bool {
    &&& a.folders() == b.folders()
    &&& a.lists() == b.lists()
    &&& a.tags() == b.tags()
}

/// `a` and `b` hold the same records outside the list table.
pub open spec fn same_but_lists<R: RepoModel + ?Sized>(a: &R, b: &R) -> bool {
    &&& a.folders() == b.folders()
    &&& a.projects() == b.projects()
    &&& a.tags() == b.tags()
}

/// `a` and `b` hold the same records outside the tag table.
pub open spec fn same_but_tags<R: RepoModel + ?Sized>(a: &R, b: &R) -> bool {
    &&& a.folders() == b.folders()
    &&& a.projects() == b.projects()
    &&& a.lists() == b.lists()
}

/// A field patch applied to a value that cannot be null.
pub open spec fn patched_value<T: View>(p: Patch<T>, current: T::V) -> T::V {
    match p {
        Patch::SetTo(v) => v@,
        _ => current,
    }
}

/// A field patch applied to a value that may be null.
pub open spec fn patched_option<T: View>(p: Patch<T>, current: Option<T::V>) -> Option<T::V> {
    match p {
        Patch::SetTo(v) => Some(v@),
        Patch::Clear => None,
        Patch::Ignore => current,
    }
}

/// Folder `f` after `patch`.
pub open spec fn patched_folder(f: FolderView, patch: PatchFolder) -> FolderView {
    FolderView {
        id: f.id,
        name: patched_value(patch.name, f.name),
        parent: patched_option(patch.parent, f.parent),
    }
}

/// Project `p` after `patch`.
pub open spec fn patched_project(p: ProjectView, patch: PatchProject) -> ProjectView {
    ProjectView {
        id: p.id,
        name: patched_value(patch.name, p.name),
        folder: patched_value(patch.folder, p.folder),
    }
}

/// List `l` after `patch`.
pub open spec fn patched_list(l: ListView, patch: PatchList) -> ListView {
    ListView {
        id: l.id,
        name: patched_value(patch.name, l.name),
        project: patched_value(patch.project, l.project),
    }
}

/// Tag `t` after `patch`.
pub open spec fn patched_tag(t: TagView, patch: UpdateTag) -> TagView {
    TagView {
        id: t.id,
        name: patched_value(patch.name, t.name),
        color: patched_option(patch.color, t.color),
    }
}

/// Reads of folders.
pub trait FolderReadRepo: RepoModel {
    /// The folder under `id`; `NotFound` when there is none.
    fn get_folder_metadata(&self, id: &FolderId) -> (r: Result<Folder, RepoError>)
        requires
            self.well_formed(),
        ensures
            found(r, self.folders(), id@),
            r is Ok ==> r->Ok_0@.id == id@,
            self.never_fails() ==> !backend_failed(r),
            self.folders().dom().finite(),
    ;

    /// The folders and projects directly inside the folder `id`; `NotFound` when there is
    /// no such folder. Their order is unspecified.
    fn get_folder_children(&self, id: &FolderId) -> (r: Result<FolderChildren, RepoError>)
        requires
            self.well_formed(),
        ensures
            match r {
                Ok(c) => self.folders().contains_key(id@) && children_of(c@, self, id@),
                Err(RepoError::NotFound) => !self.folders().contains_key(id@),
                Err(e) => backend_failed(Err::<(), RepoError>(e)),
            },
            self.never_fails() ==> !backend_failed(r),
    ;
}

/// Writes of folders.
pub trait FolderWriteRepo: FolderReadRepo {
    /// Adds a folder under a fresh key; without a parent it goes under the root.
    fn create_folder(&mut self, new: NewFolder) -> (r: Result<Folder, RepoError>)
        requires
            old(self).well_formed(),
        ensures
            final(self).well_formed(),
            same_but_folders(final(self), old(self)),
            created(
                r,
                old(self).folders(),
                final(self).folders(),
                |f: FolderView| folder_key(f),
                |k: Seq<char>|
                    FolderView {
                        id: k,
                        name: new.name@,
                        parent: Some(folder_or_root(opt_view(new.parent))),
                    },
            ),
    ;

    /// Applies `patch` to the folder `id`. Clearing the name is `InvalidInput`; a patch that
    /// changes nothing is `NoOp`, and neither reaches the store.
    fn update_folder(&mut self, id: &FolderId, patch: PatchFolder) -> (r: Result<Folder, RepoError>)
        requires
            old(self).well_formed(),
        ensures
            final(self).well_formed(),
            same_but_folders(final(self), old(self)),
            updated(
                r,
                patch.name is Clear,
                patch.name is Ignore && patch.parent is Ignore,
                old(self).folders(),
                final(self).folders(),
                id@,
                patched_folder(old(self).folders()[id@], patch),
            ),
            old(self).never_fails() ==> !backend_failed(r),
    ;

    /// Removes the folder `id`.
    fn delete_folder(&mut self, id: &FolderId) -> (r: Result<(), RepoError>)
        requires
            old(self).well_formed(),
        ensures
            final(self).well_formed(),
            same_but_folders(final(self), old(self)),
            deleted(r, old(self).folders(), final(self).folders(), id@),
            old(self).never_fails() ==> !backend_failed(r),
    ;
}

/// Reads of projects.
pub trait ProjectReadRepo: RepoModel {
    /// The project under `id`; `NotFound` when there is none.
    fn get_project(&self, id: &ProjectId) -> (r: Result<Project, RepoError>)
        requires
            self.well_formed(),
        ensures
            found(r, self.projects(), id@),
            r is Ok ==> r->Ok_0@.id == id@,
            self.never_fails() ==> !backend_failed(r),
    ;
}

/// Writes of projects.
pub trait ProjectWriteRepo: ProjectReadRepo {
    /// Adds a project under a fresh key; without a folder it goes under the root.
    fn create_project(&mut self, new: NewProject) -> (r: Result<Project, RepoError>)
        requires
            old(self).well_formed(),
        ensures
            final(self).well_formed(),
            same_but_projects(final(self), old(self)),
            created(
                r,
                old(self).projects(),
                final(self).projects(),
                |p: ProjectView| project_key(p),
                |k: Seq<char>|
                    ProjectView {
                        id: k,
                        name: new.name@,
                        folder: folder_or_root(opt_view(new.folder)),
                    },
            ),
    ;

    /// Applies `patch` to the project `id`; a project cannot lose its name or its folder.
    fn update_project(&mut self, id: &ProjectId, patch: PatchProject) -> (r: Result<Project, RepoError>)
        requires
            old(self).well_formed(),
        ensures
            final(self).well_formed(),
            same_but_projects(final(self), old(self)),
            updated(
                r,
                patch.name is Clear || patch.folder is Clear,
                patch.name is Ignore && patch.folder is Ignore,
                old(self).projects(),
                final(self).projects(),
                id@,
                patched_project(old(self).projects()[id@], patch),
            ),
            old(self).never_fails() ==> !backend_failed(r),
    ;

    /// Removes the project `id`.
    fn delete_project(&mut self, id: &ProjectId) -> (r: Result<(), RepoError>)
        requires
            old(self).well_formed(),
        ensures
            final(self).well_formed(),
            same_but_projects(final(self), old(self)),
            deleted(r, old(self).projects(), final(self).projects(), id@),
            old(self).never_fails() ==> !backend_failed(r),
    ;
}

/// Reads of lists.
pub trait ListReadRepo: RepoModel {
    /// The list under `id`; `NotFound` when there is none.
    fn get_list(&self, id: &ListId) -> (r: Result<List, RepoError>)
        requires
            self.well_formed(),
        ensures
            found(r, self.lists(), id@),
            r is Ok ==> r->Ok_0@.id == id@,
            self.never_fails() ==> !backend_failed(r),
    ;
}

/// Writes of lists.
pub trait ListWriteRepo: ListReadRepo {
    /// Adds a list under a fresh key.
    fn create_list(&mut self, new: NewList) -> (r: Result<List, RepoError>)
        requires
            old(self).well_formed(),
        ensures
            final(self).well_formed(),
            same_but_lists(final(self), old(self)),
            created(
                r,
                old(self).lists(),
                final(self).lists(),
                |l: ListView| list_key(l),
                |k: Seq<char>| ListView { id: k, name: new.name@, project: new.project@ },
            ),
    ;

    /// Applies `patch` to the list `id`; a list cannot lose its name or its project.
    fn update_list(&mut self, id: &ListId, patch: PatchList) -> (r: Result<List, RepoError>)
        requires
            old(self).well_formed(),
        ensures
            final(self).well_formed(),
            same_but_lists(final(self), old(self)),
            updated(
                r,
                patch.name is Clear || patch.project is Clear,
                patch.name is Ignore && patch.project is Ignore,
                old(self).lists(),
                final(self).lists(),
                id@,
                patched_list(old(self).lists()[id@], patch),
            ),
            old(self).never_fails() ==> !backend_failed(r),
    ;

    /// Removes the list `id`.
    fn delete_list(&mut self, id: &ListId) -> (r: Result<(), RepoError>)
        requires
            old(self).well_formed(),
        ensures
            final(self).well_formed(),
            same_but_lists(final(self), old(self)),
            deleted(r, old(self).lists(), final(self).lists(), id@),
            old(self).never_fails() ==> !backend_failed(r),
    ;
}

/// Reads of tags.
pub trait TagReadRepo: RepoModel {
    /// The tag under `id`; `NotFound` when there is none.
    fn get_tag(&self, id: &TagId) -> (r: Result<Tag, RepoError>)
        requires
            self.well_formed(),
        ensures
            found(r, self.tags(), id@),
            r is Ok ==> r->Ok_0@.id == id@,
            self.never_fails() ==> !backend_failed(r),
    ;
}

/// Writes of tags.
pub trait TagWriteRepo: TagReadRepo {
    /// Adds a tag under a fresh key.
    fn create_tag(&mut self, new: NewTag) -> (r: Result<Tag, RepoError>)
        requires
            old(self).well_formed(),
        ensures
            final(self).well_formed(),
            same_but_tags(final(self), old(self)),
            created(
                r,
                old(self).tags(),
                final(self).tags(),
                |t: TagView| tag_key(t),
                |k: Seq<char>| TagView { id: k, name: new.name@, color: opt_view(new.color) },
            ),
    ;

    /// Applies `patch` to the tag `id`; a tag cannot lose its name, but it can lose its color.
    fn update_tag(&mut self, id: &TagId, patch: UpdateTag) -> (r: Result<Tag, RepoError>)
        requires
            old(self).well_formed(),
        ensures
            final(self).well_formed(),
            same_but_tags(final(self), old(self)),
            updated(
                r,
                patch.name is Clear,
                patch.name is Ignore && patch.color is Ignore,
                old(self).tags(),
                final(self).tags(),
                id@,
                patched_tag(old(self).tags()[id@], patch),
            ),
            old(self).never_fails() ==> !backend_failed(r),
    ;

    /// Removes the tag `id`.
    fn delete_tag(&mut self, id: &TagId) -> (r: Result<(), RepoError>)
        requires
            old(self).well_formed(),
        ensures
            final(self).well_formed(),
            same_but_tags(final(self), old(self)),
            deleted(r, old(self).tags(), final(self).tags(), id@),
            old(self).never_fails() ==> !backend_failed(r),
    ;
}

} // verus!
